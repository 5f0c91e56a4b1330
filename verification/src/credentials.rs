//! The rules of the credential store: which names and passwords are taken,
//! when a login succeeds, and how a password becomes a stored hash.

use argon2::password_hash::PasswordHash;
use argon2::password_hash::PasswordHasher;
use argon2::password_hash::PasswordVerifier;
use argon2::password_hash::SaltString;
use argon2::Argon2;
use vstd::prelude::*;
use vstd::string::*;

use crate::text::char_count;
use crate::text::trim;
use crate::text::trimmed;

verus! {

/// Why the credential store turned a request down.
#[derive(Clone, Copy, PartialEq, Eq, Structural, Debug)]
pub enum CredentialError {
    /// The name is empty once trimmed.
    UsernameEmpty,
    /// The trimmed name has fewer than 3 characters.
    UsernameTooShort,
    /// The trimmed name has more than 50 characters.
    UsernameTooLong,
    /// A login was tried with an empty password.
    PasswordEmpty,
    /// The password has fewer than 6 characters.
    PasswordTooShort,
    /// The password has more than 100 characters.
    PasswordTooLong,
    /// The trimmed name is registered already.
    UsernameTaken,
    /// No such user, or the password does not match: one answer for both.
    InvalidCredentials,
    /// The password could not be hashed.
    HashingFailed,
    /// No user identifier is left to give out.
    StoreFull,
}

/// The families that the errors of the credential store fall into.
#[derive(Clone, Copy, PartialEq, Eq, Structural, Debug)]
pub enum CredentialErrorKind {
    Validation,
    Conflict,
    Auth,
    Internal,
}

impl CredentialError {
    /// The family of this error.
    pub open spec fn kind_of(self) -> CredentialErrorKind {
        match self {
            CredentialError::UsernameEmpty => CredentialErrorKind::Validation,
            CredentialError::UsernameTooShort => CredentialErrorKind::Validation,
            CredentialError::UsernameTooLong => CredentialErrorKind::Validation,
            CredentialError::PasswordEmpty => CredentialErrorKind::Validation,
            CredentialError::PasswordTooShort => CredentialErrorKind::Validation,
            CredentialError::PasswordTooLong => CredentialErrorKind::Validation,
            CredentialError::UsernameTaken => CredentialErrorKind::Conflict,
            CredentialError::InvalidCredentials => CredentialErrorKind::Auth,
            CredentialError::HashingFailed => CredentialErrorKind::Internal,
            CredentialError::StoreFull => CredentialErrorKind::Internal,
        }
    }

    /// The sentence shown to the user for this error.
    pub open spec fn message_of(self) -> Seq<char> {
        match self {
            CredentialError::UsernameEmpty => "Username cannot be empty"@,
            CredentialError::UsernameTooShort => "Username must be at least 3 characters long"@,
            CredentialError::UsernameTooLong => "Username must be less than 50 characters long"@,
            CredentialError::PasswordEmpty => "Password cannot be empty"@,
            CredentialError::PasswordTooShort => "Password must be at least 6 characters long"@,
            CredentialError::PasswordTooLong => "Password must be less than 100 characters long"@,
            CredentialError::UsernameTaken => "Username already exists"@,
            CredentialError::InvalidCredentials => "invalid username or password"@,
            CredentialError::HashingFailed => "Password hashing failed"@,
            CredentialError::StoreFull => "Failed to create user"@,
        }
    }

    /// The family of this error.
    pub fn kind(&self) -> (k: CredentialErrorKind)
        ensures
            k == self.kind_of(),
    {
        match self {
            CredentialError::UsernameEmpty => CredentialErrorKind::Validation,
            CredentialError::UsernameTooShort => CredentialErrorKind::Validation,
            CredentialError::UsernameTooLong => CredentialErrorKind::Validation,
            CredentialError::PasswordEmpty => CredentialErrorKind::Validation,
            CredentialError::PasswordTooShort => CredentialErrorKind::Validation,
            CredentialError::PasswordTooLong => CredentialErrorKind::Validation,
            CredentialError::UsernameTaken => CredentialErrorKind::Conflict,
            CredentialError::InvalidCredentials => CredentialErrorKind::Auth,
            CredentialError::HashingFailed => CredentialErrorKind::Internal,
            CredentialError::StoreFull => CredentialErrorKind::Internal,
        }
    }

    /// The sentence shown to the user for this error.
    pub fn message(&self) -> (m: String)
        ensures
            m@ == self.message_of(),
    {
        match self {
            CredentialError::UsernameEmpty => String::from_str("Username cannot be empty"),
            CredentialError::UsernameTooShort => String::from_str(
                "Username must be at least 3 characters long",
            ),
            CredentialError::UsernameTooLong => String::from_str(
                "Username must be less than 50 characters long",
            ),
            CredentialError::PasswordEmpty => String::from_str("Password cannot be empty"),
            CredentialError::PasswordTooShort => String::from_str(
                "Password must be at least 6 characters long",
            ),
            CredentialError::PasswordTooLong => String::from_str(
                "Password must be less than 100 characters long",
            ),
            CredentialError::UsernameTaken => String::from_str("Username already exists"),
            CredentialError::InvalidCredentials => String::from_str(
                "invalid username or password",
            ),
            CredentialError::HashingFailed => String::from_str("Password hashing failed"),
            CredentialError::StoreFull => String::from_str("Failed to create user"),
        }
    }
}

/// A registered user as the store keeps it.
#[derive(Clone, Debug, PartialEq)]
pub struct UserRecord {
    pub id: i64,
    pub username: String,
    pub password_hash: String,
}

/// A stored user as the contracts see it.
pub struct UserView {
    pub id: int,
    pub username: Seq<char>,
    pub password_hash: Seq<char>,
}

impl View for UserRecord {
    type V = UserView;

    open spec fn view(&self) -> UserView {
        UserView { id: self.id as int, username: self.username@, password_hash: self.password_hash@ }
    }
}

/// What a successful registration or login hands back.
#[derive(Clone, Debug, PartialEq)]
pub struct AuthResponse {
    pub user_id: i64,
    pub username: String,
}

/// An identity as the contracts see it.
pub struct IdentityView {
    pub user_id: int,
    pub username: Seq<char>,
}

impl View for AuthResponse {
    type V = IdentityView;

    open spec fn view(&self) -> IdentityView {
        IdentityView { user_id: self.user_id as int, username: self.username@ }
    }
}

/// A request to register.
#[derive(Clone, Debug, PartialEq)]
pub struct RegisterPayload {
    pub username: String,
    pub password: String,
}

/// A request to log in.
#[derive(Clone, Debug, PartialEq)]
pub struct LoginPayload {
    pub username: String,
    pub password: String,
}

/// The identity that a stored user answers to.
pub open spec fn identity_of(user: UserView) -> IdentityView {
    IdentityView { user_id: user.id, username: user.username }
}

/// The view of an answer of the credential store.
pub open spec fn answer_view(r: Result<AuthResponse, CredentialError>) -> Result<
    IdentityView,
    CredentialError,
> {
    match r {
        Ok(identity) => Ok(identity@),
        Err(e) => Err(e),
    }
}

/// Why a trimmed name cannot be registered, if it cannot.
pub open spec fn username_rejection(name: Seq<char>) -> Option<CredentialError> {
    if name.len() == 0 {
        Some(CredentialError::UsernameEmpty)
    } else if name.len() < 3 {
        Some(CredentialError::UsernameTooShort)
    } else if name.len() > 50 {
        Some(CredentialError::UsernameTooLong)
    } else {
        None
    }
}

/// Why a password cannot be registered, if it cannot.
pub open spec fn password_rejection(password: Seq<char>) -> Option<CredentialError> {
    if password.len() < 6 {
        Some(CredentialError::PasswordTooShort)
    } else if password.len() > 100 {
        Some(CredentialError::PasswordTooLong)
    } else {
        None
    }
}

/// Why a registration is malformed, if it is: the name is judged first and
/// after trimming, the password as it was typed.
pub open spec fn registration_flaw(username: Seq<char>, password: Seq<char>) -> Option<
    CredentialError,
> {
    match username_rejection(trimmed(username)) {
        Some(e) => Some(e),
        None => password_rejection(password),
    }
}

/// Why a login is malformed, if it is.
pub open spec fn login_flaw(username: Seq<char>, password: Seq<char>) -> Option<CredentialError> {
    if trimmed(username).len() == 0 {
        Some(CredentialError::UsernameEmpty)
    } else if password.len() == 0 {
        Some(CredentialError::PasswordEmpty)
    } else {
        None
    }
}

/// Judges a registration before anything is looked up: gives the trimmed
/// name of a well-formed one, and the flaw of any other.
pub fn check_registration<'a>(username: &'a str, password: &str) -> (r: Result<
    &'a str,
    CredentialError,
>)
    ensures
        match r {
            Ok(name) => registration_flaw(username@, password@) is None && name@ == trimmed(
                username@,
            ),
            Err(e) => registration_flaw(username@, password@) == Some(e),
        },
{
    let name = trim(username);
    let name_len = char_count(name);
    if name_len == 0 {
        return Err(CredentialError::UsernameEmpty);
    }
    if name_len < 3 {
        return Err(CredentialError::UsernameTooShort);
    }
    if name_len > 50 {
        return Err(CredentialError::UsernameTooLong);
    }
    let password_len = char_count(password);
    if password_len < 6 {
        return Err(CredentialError::PasswordTooShort);
    }
    if password_len > 100 {
        return Err(CredentialError::PasswordTooLong);
    }
    Ok(name)
}

/// Judges a login before anything is looked up: gives the trimmed name of a
/// well-formed one, and the flaw of any other.
pub fn check_login<'a>(username: &'a str, password: &str) -> (r: Result<&'a str, CredentialError>)
    ensures
        match r {
            Ok(name) => login_flaw(username@, password@) is None && name@ == trimmed(username@),
            Err(e) => login_flaw(username@, password@) == Some(e),
        },
{
    let name = trim(username);
    if char_count(name) == 0 {
        return Err(CredentialError::UsernameEmpty);
    }
    if char_count(password) == 0 {
        return Err(CredentialError::PasswordEmpty);
    }
    Ok(name)
}

/// Whether some stored user has this name, compared character by character.
pub open spec fn has_username(users: Seq<UserView>, name: Seq<char>) -> bool {
    exists|i: int| 0 <= i < users.len() && (#[trigger] users[i]).username == name
}

/// A stored user of this name.
pub open spec fn user_named(users: Seq<UserView>, name: Seq<char>) -> UserView {
    users[choose|i: int| 0 <= i < users.len() && (#[trigger] users[i]).username == name]
}

/// Whether some stored user has this identifier.
pub open spec fn has_user_id(users: Seq<UserView>, id: int) -> bool {
    exists|i: int| 0 <= i < users.len() && (#[trigger] users[i]).id == id
}

/// Whether Argon2 accepts `password` for the stored hash `stored`: the hash
/// parses as a PHC string and the password, hashed with the salt and the
/// parameters that the string carries, gives the output that it carries.
pub uninterp spec fn password_matches(password: Seq<char>, stored: Seq<char>) -> bool;

/// What a login is answered with, given the users on record.
pub open spec fn login_outcome(users: Seq<UserView>, username: Seq<char>, password: Seq<char>)
    -> Result<IdentityView, CredentialError> {
    match login_flaw(username, password) {
        Some(e) => Err(e),
        None => {
            let name = trimmed(username);
            if has_username(users, name) && password_matches(
                password,
                user_named(users, name).password_hash,
            ) {
                Ok(identity_of(user_named(users, name)))
            } else {
                Err(CredentialError::InvalidCredentials)
            }
        },
    }
}

/// What a login is answered with once the password has been held against
/// the stored hash: the user's identity where it matched, and the one answer
/// for every failed login where it did not.
pub fn conclude_login(user: &UserRecord, matched: bool) -> (r: Result<
    AuthResponse,
    CredentialError,
>)
    ensures
        matched ==> answer_view(r) == Ok::<IdentityView, CredentialError>(identity_of(user@)),
        !matched ==> answer_view(r) == Err::<IdentityView, CredentialError>(
            CredentialError::InvalidCredentials,
        ),
{
    if matched {
        Ok(AuthResponse { user_id: user.id, username: user.username.clone() })
    } else {
        Err(CredentialError::InvalidCredentials)
    }
}

/// `SaltString` of password-hash, opaque: a salt is made and handed on, and
/// nothing of it is read.
#[verifier::external_type_specification]
#[verifier::external_body]
pub struct ExSaltString(argon2::password_hash::SaltString);

/// `Error` of password-hash, opaque: every failure of hashing is one and
/// the same to the library.
#[verifier::external_type_specification]
#[verifier::external_body]
pub struct ExPasswordHashError(argon2::password_hash::Error);

/// `SaltString::generate` of password-hash, fed from `rand_core::OsRng`: a
/// salt of 16 random bytes. Nothing is claimed of the salt.
#[verifier::external_body]
fn fresh_salt() -> SaltString {
    SaltString::generate(&mut rand_core::OsRng)
}

/// `Argon2::default().hash_password` of argon2, with the result written out
/// as a PHC string. Claims that a hash which comes back is one that
/// `verify_password` accepts for the same password, as the crate documents.
#[verifier::external_body]
fn argon2_hash(password: &str, salt: &SaltString) -> (r: Result<
    String,
    argon2::password_hash::Error,
>)
    ensures
        r matches Ok(hash) ==> password_matches(password@, hash@),
{
    Argon2::default().hash_password(password.as_bytes(), salt).map(|hash| hash.to_string())
}

/// `PasswordHash::new` of password-hash followed by
/// `Argon2::default().verify_password` of argon2: whether `stored` parses as
/// a PHC string and the password verifies against it.
#[verifier::external_body]
fn argon2_verify(password: &str, stored: &str) -> (ok: bool)
    ensures
        ok == password_matches(password@, stored@),
{
    match PasswordHash::new(stored) {
        Ok(parsed) => Argon2::default().verify_password(password.as_bytes(), &parsed).is_ok(),
        Err(_) => false,
    }
}

/// Hashes `password` under a fresh random salt. Whatever the salt, a hash
/// that comes back matches the password.
pub fn hash_password(password: &str) -> (r: Result<String, CredentialError>)
    ensures
        r matches Ok(hash) ==> password_matches(password@, hash@),
        r matches Err(e) ==> e == CredentialError::HashingFailed,
{
    let salt = fresh_salt();
    match argon2_hash(password, &salt) {
        Ok(hash) => Ok(hash),
        Err(_) => Err(CredentialError::HashingFailed),
    }
}

/// Whether `password` matches the stored hash.
pub fn verify_password(password: &str, stored: &str) -> (ok: bool)
    ensures
        ok == password_matches(password@, stored@),
{
    argon2_verify(password, stored)
}

} // verus!
