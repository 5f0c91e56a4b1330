//! The rules of a personal media tracker: local accounts, a per-user library
//! of tracked titles, and the mapping of two catalogs' answers onto one
//! record shape.
//!
//! `store` holds the database and its four operations; `credentials` and
//! `library` hold the rules that those operations are stated in, and `laws`
//! what follows from them. `anime` and `general` are the two catalog
//! adapters: each builds the requests to send and maps the answers that
//! come back onto the records of `catalog`. `json` is the boundary to
//! serde_json, `text` and `number` are shared ground.
//!
//! Nothing here reads a file, opens a socket or looks at the environment:
//! a caller sends what the adapters build, hands back what it received,
//! and keeps the rows of the database wherever it likes.

pub mod anime;
pub mod catalog;
pub mod credentials;
pub mod general;
pub mod json;
pub mod laws;
pub mod library;
pub mod number;
pub mod store;
pub mod text;
