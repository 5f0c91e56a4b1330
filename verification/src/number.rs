//! RealBits numbers as the library carries them.

use vstd::prelude::*;

verus! {

/// A real number, held as its IEEE 754 binary64 bit pattern. The library
/// stores such numbers and hands them on, and never computes with them.
#[derive(Clone, Copy, PartialEq, Eq, Structural, Debug)]
pub struct RealBits {
    pub bits: u64,
}

} // verus!
