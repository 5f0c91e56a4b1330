use andrate::credentials::check_login;
use andrate::credentials::check_registration;
use andrate::credentials::hash_password;
use andrate::credentials::verify_password;
use andrate::credentials::AuthResponse;
use andrate::credentials::CredentialError;
use andrate::credentials::CredentialErrorKind;
use andrate::credentials::LoginPayload;
use andrate::credentials::RegisterPayload;
use andrate::credentials::UserRecord;
use andrate::store::Database;

fn registration(username: &str, password: &str) -> RegisterPayload {
    RegisterPayload { username: username.to_string(), password: password.to_string() }
}

fn login(username: &str, password: &str) -> LoginPayload {
    LoginPayload { username: username.to_string(), password: password.to_string() }
}

#[test]
fn registration_judges_the_trimmed_name() {
    assert_eq!(check_registration("", "secret1"), Err(CredentialError::UsernameEmpty));
    assert_eq!(check_registration("   ", "secret1"), Err(CredentialError::UsernameEmpty));
    assert_eq!(check_registration("ab", "secret1"), Err(CredentialError::UsernameTooShort));
    assert_eq!(check_registration("  ab  ", "secret1"), Err(CredentialError::UsernameTooShort));
    assert_eq!(check_registration("abc", "secret1"), Ok("abc"));
    assert_eq!(check_registration("  abc ", "secret1"), Ok("abc"));
}

#[test]
fn registration_counts_characters_of_the_name() {
    let fifty = "x".repeat(50);
    let fifty_one = "x".repeat(51);
    assert_eq!(check_registration(&fifty, "secret1"), Ok(fifty.as_str()));
    assert_eq!(check_registration(&fifty_one, "secret1"), Err(CredentialError::UsernameTooLong));
    let padded = format!("  {}  ", fifty);
    assert_eq!(check_registration(&padded, "secret1"), Ok(fifty.as_str()));
    let wide = "\u{9032}".repeat(50);
    assert_eq!(check_registration(&wide, "secret1"), Ok(wide.as_str()));
    assert_eq!(check_registration("\u{9032}\u{6483}", "secret1"), Err(CredentialError::UsernameTooShort));
}

#[test]
fn registration_judges_the_password_as_typed() {
    assert_eq!(check_registration("alice", ""), Err(CredentialError::PasswordTooShort));
    assert_eq!(check_registration("alice", "12345"), Err(CredentialError::PasswordTooShort));
    assert_eq!(check_registration("alice", "123456"), Ok("alice"));
    assert_eq!(check_registration("alice", "      "), Ok("alice"));
    let hundred = "p".repeat(100);
    let hundred_one = "p".repeat(101);
    assert_eq!(check_registration("alice", &hundred), Ok("alice"));
    assert_eq!(check_registration("alice", &hundred_one), Err(CredentialError::PasswordTooLong));
}

#[test]
fn registration_reports_the_name_before_the_password() {
    assert_eq!(check_registration("ab", "1"), Err(CredentialError::UsernameTooShort));
    assert_eq!(check_registration(" ", ""), Err(CredentialError::UsernameEmpty));
}

#[test]
fn login_needs_a_name_and_a_password() {
    assert_eq!(check_login("", "x"), Err(CredentialError::UsernameEmpty));
    assert_eq!(check_login(" \t", "x"), Err(CredentialError::UsernameEmpty));
    assert_eq!(check_login("alice", ""), Err(CredentialError::PasswordEmpty));
    assert_eq!(check_login(" alice ", "x"), Ok("alice"));
    assert_eq!(check_login("a", " "), Ok("a"));
}

#[test]
fn every_error_has_its_kind_and_message() {
    let all = [
        (CredentialError::UsernameEmpty, CredentialErrorKind::Validation, "Username cannot be empty"),
        (
            CredentialError::UsernameTooShort,
            CredentialErrorKind::Validation,
            "Username must be at least 3 characters long",
        ),
        (
            CredentialError::UsernameTooLong,
            CredentialErrorKind::Validation,
            "Username must be less than 50 characters long",
        ),
        (CredentialError::PasswordEmpty, CredentialErrorKind::Validation, "Password cannot be empty"),
        (
            CredentialError::PasswordTooShort,
            CredentialErrorKind::Validation,
            "Password must be at least 6 characters long",
        ),
        (
            CredentialError::PasswordTooLong,
            CredentialErrorKind::Validation,
            "Password must be less than 100 characters long",
        ),
        (CredentialError::UsernameTaken, CredentialErrorKind::Conflict, "Username already exists"),
        (
            CredentialError::InvalidCredentials,
            CredentialErrorKind::Auth,
            "invalid username or password",
        ),
        (CredentialError::HashingFailed, CredentialErrorKind::Internal, "Password hashing failed"),
        (CredentialError::StoreFull, CredentialErrorKind::Internal, "Failed to create user"),
    ];
    for (error, kind, message) in all {
        assert_eq!(error.kind(), kind);
        assert_eq!(error.message(), message);
    }
}

#[test]
fn a_hash_is_no_plaintext_and_verifies() {
    let hash = hash_password("correct horse").unwrap();
    assert_ne!(hash, "correct horse");
    assert!(!hash.contains("correct horse"));
    assert!(hash.starts_with("$argon2"));
    assert!(verify_password("correct horse", &hash));
    assert!(!verify_password("correct horsE", &hash));
    assert!(!verify_password("", &hash));
}

#[test]
fn two_hashes_of_one_password_differ() {
    let first = hash_password("same password").unwrap();
    let second = hash_password("same password").unwrap();
    assert_ne!(first, second);
    assert!(verify_password("same password", &first));
    assert!(verify_password("same password", &second));
}

#[test]
fn a_stored_text_that_is_no_hash_matches_nothing() {
    assert!(!verify_password("secret1", "secret1"));
    assert!(!verify_password("secret1", ""));
    assert!(!verify_password("", ""));
    assert!(!verify_password("x", "$argon2id$broken"));
}

#[test]
fn register_returns_the_new_identity() {
    let mut db = Database::new();
    let answer = db.register_user(&registration("  alice ", "secret1")).unwrap();
    assert_eq!(answer, AuthResponse { user_id: 1, username: "alice".to_string() });
    assert_eq!(db.user_count(), 1);
    let row = &db.users()[0];
    assert_eq!(row.id, 1);
    assert_eq!(row.username, "alice");
    assert_ne!(row.password_hash, "secret1");
    assert!(verify_password("secret1", &row.password_hash));
}

#[test]
fn register_numbers_users_in_order() {
    let mut db = Database::new();
    let a = db.register_with_hash(&registration("alice", "secret1"), "h1".to_string()).unwrap();
    let b = db.register_with_hash(&registration("bob", "secret2"), "h2".to_string()).unwrap();
    let c = db.register_with_hash(&registration("carol", "secret3"), "h3".to_string()).unwrap();
    assert_eq!((a.user_id, b.user_id, c.user_id), (1, 2, 3));
    assert_eq!(db.user_count(), 3);
    assert_eq!(db.users()[1].password_hash, "h2");
    assert_eq!(db.users()[2].username, "carol");
}

#[test]
fn register_rejects_bad_names_and_inserts_nothing() {
    let mut db = Database::new();
    let long = "y".repeat(51);
    for name in ["", "  ", "ab", " ab ", long.as_str()] {
        let r = db.register_user(&registration(name, "secret1"));
        assert_eq!(r.unwrap_err().kind(), CredentialErrorKind::Validation);
        assert_eq!(db.user_count(), 0);
    }
}

#[test]
fn register_rejects_bad_passwords_and_inserts_nothing() {
    let mut db = Database::new();
    let long = "p".repeat(101);
    assert_eq!(
        db.register_user(&registration("alice", "12345")),
        Err(CredentialError::PasswordTooShort)
    );
    assert_eq!(
        db.register_user(&registration("alice", &long)),
        Err(CredentialError::PasswordTooLong)
    );
    assert_eq!(db.user_count(), 0);
}

#[test]
fn register_twice_is_a_conflict() {
    let mut db = Database::new();
    db.register_with_hash(&registration("alice", "secret1"), "h1".to_string()).unwrap();
    let before = db.users().clone();
    let again = db.register_user(&registration("  alice  ", "another1"));
    assert_eq!(again, Err(CredentialError::UsernameTaken));
    assert_eq!(again.unwrap_err().kind(), CredentialErrorKind::Conflict);
    assert_eq!(db.user_count(), 1);
    assert_eq!(db.users(), &before);
}

#[test]
fn names_differ_by_case() {
    let mut db = Database::new();
    db.register_with_hash(&registration("alice", "secret1"), "h1".to_string()).unwrap();
    let other = db.register_with_hash(&registration("Alice", "secret1"), "h2".to_string());
    assert_eq!(other.unwrap().user_id, 2);
    assert_eq!(db.user_count(), 2);
}

#[test]
fn rejection_is_told_without_registering() {
    let mut db = Database::new();
    assert_eq!(db.registration_rejection(&registration("alice", "secret1")), None);
    assert_eq!(db.user_count(), 0);
    db.register_with_hash(&registration("alice", "secret1"), "h1".to_string()).unwrap();
    assert_eq!(
        db.registration_rejection(&registration("alice", "secret1")),
        Some(CredentialError::UsernameTaken)
    );
    assert_eq!(
        db.registration_rejection(&registration("al", "secret1")),
        Some(CredentialError::UsernameTooShort)
    );
}

#[test]
fn login_after_register_returns_the_same_identity() {
    let mut db = Database::new();
    db.register_with_hash(&registration("zed", "whatever1"), "not a hash".to_string()).unwrap();
    let registered = db.register_user(&registration("alice", "secret1")).unwrap();
    let logged_in = db.login_user(&login("alice", "secret1")).unwrap();
    assert_eq!(logged_in, registered);
    assert_eq!(logged_in.user_id, 2);
    let padded = db.login_user(&login("  alice\n", "secret1")).unwrap();
    assert_eq!(padded, registered);
}

#[test]
fn failed_logins_look_alike() {
    let mut db = Database::new();
    db.register_user(&registration("alice", "secret1")).unwrap();
    let wrong = db.login_user(&login("alice", "secret2")).unwrap_err();
    let unknown = db.login_user(&login("mallory", "secret1")).unwrap_err();
    assert_eq!(wrong, CredentialError::InvalidCredentials);
    assert_eq!(wrong, unknown);
    assert_eq!(wrong.message(), unknown.message());
    assert_eq!(wrong.message(), "invalid username or password");
    assert_eq!(wrong.kind(), CredentialErrorKind::Auth);
}

#[test]
fn login_with_a_broken_stored_hash_fails_like_any_other() {
    let mut db = Database::new();
    db.register_with_hash(&registration("alice", "secret1"), "secret1".to_string()).unwrap();
    assert_eq!(db.login_user(&login("alice", "secret1")), Err(CredentialError::InvalidCredentials));
}

#[test]
fn login_is_validated_first() {
    let db = Database::new();
    assert_eq!(db.login_user(&login("  ", "x")), Err(CredentialError::UsernameEmpty));
    assert_eq!(db.login_user(&login("alice", "")), Err(CredentialError::PasswordEmpty));
    assert_eq!(db.login_user(&login("", "")), Err(CredentialError::UsernameEmpty));
    assert_eq!(db.login_user(&login("alice", "x")), Err(CredentialError::InvalidCredentials));
}

#[test]
fn find_login_hands_out_the_stored_user() {
    let mut db = Database::new();
    db.register_with_hash(&registration("alice", "secret1"), "h1".to_string()).unwrap();
    db.register_with_hash(&registration("bob", "secret2"), "h2".to_string()).unwrap();
    let found = db.find_login(&login(" bob ", "anything")).unwrap();
    assert_eq!(found.id, 2);
    assert_eq!(found.password_hash, "h2");
    assert_eq!(
        db.find_login(&login("carol", "anything")),
        Err(CredentialError::InvalidCredentials)
    );
}

#[test]
fn a_full_table_of_users_takes_no_more() {
    let last = UserRecord {
        id: i64::MAX,
        username: "omega".to_string(),
        password_hash: "h".to_string(),
    };
    let mut db = Database::load(vec![last], Vec::new()).unwrap();
    let r = db.register_user(&registration("alice", "secret1"));
    assert_eq!(r, Err(CredentialError::StoreFull));
    assert_eq!(r.unwrap_err().kind(), CredentialErrorKind::Internal);
    assert_eq!(db.user_count(), 1);
    assert_eq!(
        db.register_user(&registration("omega", "secret1")),
        Err(CredentialError::UsernameTaken)
    );
}

#[test]
fn a_fresh_database_is_empty() {
    let db = Database::new();
    assert_eq!(db.user_count(), 0);
    assert_eq!(db.entry_count(), 0);
    assert!(db.users().is_empty());
    assert!(db.entries().is_empty());
    assert!(!db.has_user(1));
}

#[test]
fn a_stored_name_of_any_length_can_log_in() {
    let hash = hash_password("secret1").unwrap();
    let short = UserRecord { id: 1, username: "al".to_string(), password_hash: hash };
    let db = Database::load(vec![short], Vec::new()).unwrap();
    let identity = db.login_user(&login(" al ", "secret1")).unwrap();
    assert_eq!(identity, AuthResponse { user_id: 1, username: "al".to_string() });
    assert_eq!(db.login_user(&login("al", "secret2")), Err(CredentialError::InvalidCredentials));
}

#[test]
fn registration_stores_trimmed_names_of_3_to_50_characters() {
    let mut db = Database::new();
    let fifty = "n".repeat(50);
    for name in ["  abc ", "\tbob\n", fifty.as_str()] {
        db.register_with_hash(&registration(name, "secret1"), "h".to_string()).unwrap();
    }
    for user in db.users() {
        assert_eq!(user.username.trim(), user.username);
        let n = user.username.chars().count();
        assert!(3 <= n && n <= 50);
    }
    assert_eq!(db.user_count(), 3);
}
