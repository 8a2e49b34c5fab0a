use secure_notes::errors::{AccountError, ValidationError};
use secure_notes::time::Timestamp;
use secure_notes::user::{validate_password, validate_username, User, UserManager};

fn invalid(fault: ValidationError) -> Result<(), AccountError> {
    Err(AccountError::Validation(fault))
}

fn plain_user(id: &str, username: &str) -> User {
    User {
        id: id.to_string(),
        username: username.to_string(),
        password_hash: "unreadable".to_string(),
        salt: "salt".to_string(),
        created_at: Timestamp { secs: 1, nanos: 2 },
    }
}

#[test]
fn username_shape_is_validated() {
    assert_eq!(validate_username(""), Err(ValidationError::EmptyUsername));
    assert_eq!(validate_username("   "), Err(ValidationError::EmptyUsername));
    assert_eq!(validate_username(" \t\n   "), Err(ValidationError::EmptyUsername));
    assert_eq!(validate_username("ab"), Err(ValidationError::UsernameTooShort));
    assert_eq!(validate_username("a "), Err(ValidationError::UsernameTooShort));
    assert_eq!(validate_username("abc"), Ok(()));
    assert_eq!(validate_username(&"a".repeat(50)), Ok(()));
    assert_eq!(validate_username(&"a".repeat(51)), Err(ValidationError::UsernameTooLong));
    assert_eq!(validate_username("bad name"), Err(ValidationError::InvalidUsernameCharacters));
    assert_eq!(validate_username("bad!"), Err(ValidationError::InvalidUsernameCharacters));
    assert_eq!(validate_username("a.b"), Err(ValidationError::InvalidUsernameCharacters));
    assert_eq!(validate_username("good_name-1"), Ok(()));
    assert_eq!(validate_username("Zoë"), Ok(()));
    assert_eq!(validate_username("名前です"), Ok(()));
}

#[test]
fn username_length_counts_characters() {
    assert_eq!(validate_username("éé"), Err(ValidationError::UsernameTooShort));
    assert_eq!(validate_username(&"é".repeat(50)), Ok(()));
    assert_eq!(validate_username(&"é".repeat(51)), Err(ValidationError::UsernameTooLong));
}

#[test]
fn password_length_is_validated() {
    assert_eq!(validate_password(""), Err(ValidationError::PasswordTooShort));
    assert_eq!(validate_password("short"), Err(ValidationError::PasswordTooShort));
    assert_eq!(validate_password("sixsix"), Ok(()));
    assert_eq!(validate_password(&"p".repeat(128)), Ok(()));
    assert_eq!(validate_password(&"p".repeat(129)), Err(ValidationError::PasswordTooLong));
    assert_eq!(validate_password("pässw"), Err(ValidationError::PasswordTooShort));
    assert_eq!(validate_password("pässwö"), Ok(()));
}

#[test]
fn password_policy() {
    let mut registry = UserManager::new();
    assert_eq!(
        registry.create_user("bob".to_string(), "short"),
        invalid(ValidationError::PasswordTooShort)
    );
    assert_eq!(registry.get_user_count(), 0);
    assert_eq!(registry.create_user("bob".to_string(), "longenough"), Ok(()));
    assert_eq!(registry.get_user_count(), 1);
}

#[test]
fn username_uniqueness() {
    let mut registry = UserManager::new();
    assert_eq!(registry.create_user("Alice".to_string(), "password1"), Ok(()));
    assert_eq!(
        registry.create_user("alice".to_string(), "password2"),
        invalid(ValidationError::DuplicateUsername)
    );
    assert_eq!(
        registry.create_user("ALICE".to_string(), "password2"),
        invalid(ValidationError::DuplicateUsername)
    );
    assert_eq!(
        registry.create_user("Alice".to_string(), "password2"),
        invalid(ValidationError::DuplicateUsername)
    );
    assert_eq!(registry.get_user_count(), 1);
    assert_eq!(registry.create_user("alice2".to_string(), "password2"), Ok(()));
    assert_eq!(registry.get_user_count(), 2);
}

#[test]
fn validation_order() {
    let mut registry = UserManager::new();
    assert_eq!(registry.create_user("carol".to_string(), "password1"), Ok(()));
    assert_eq!(registry.validate_registration(" ", "x"), Err(ValidationError::EmptyUsername));
    assert_eq!(registry.validate_registration("c!", "x"), Err(ValidationError::UsernameTooShort));
    assert_eq!(
        registry.validate_registration("c!!", "x"),
        Err(ValidationError::InvalidUsernameCharacters)
    );
    assert_eq!(registry.validate_registration("Carol", "x"), Err(ValidationError::PasswordTooShort));
    assert_eq!(
        registry.validate_registration("Carol", &"x".repeat(200)),
        Err(ValidationError::PasswordTooLong)
    );
    assert_eq!(
        registry.validate_registration("Carol", "password"),
        Err(ValidationError::DuplicateUsername)
    );
    assert_eq!(registry.validate_registration("dave", "password"), Ok(()));
    assert_eq!(registry.get_user_count(), 1);
}

#[test]
fn created_users_are_appended_with_fresh_ids() {
    let mut registry = UserManager::new();
    registry.create_user("first".to_string(), "password1").unwrap();
    registry.create_user("second".to_string(), "password2").unwrap();
    let first = registry.user_at(0).unwrap();
    let second = registry.user_at(1).unwrap();
    assert!(registry.user_at(2).is_none());
    assert_eq!(first.username, "first");
    assert_eq!(second.username, "second");
    assert_ne!(first.id, second.id);
    assert_eq!(first.id.len(), 36);
    assert!(first.password_hash.starts_with("$argon2id$"));
    assert!(first.password_hash.contains(&first.salt));
    assert_ne!(first.salt, second.salt);
    assert!(first.created_at.secs > 1_600_000_000);
}

#[test]
fn authenticate_returns_the_user() {
    let mut registry = UserManager::new();
    registry.create_user("alice".to_string(), "password1").unwrap();
    registry.create_user("bob".to_string(), "password2").unwrap();
    let user = registry.authenticate("bob", "password2").unwrap();
    assert_eq!(user.username, "bob");
    assert_eq!(user.id, registry.user_at(1).unwrap().id);
    assert_eq!(user.password_hash, registry.user_at(1).unwrap().password_hash);
}

#[test]
fn authenticate_fails_with_one_error() {
    let mut registry = UserManager::new();
    registry.create_user("alice".to_string(), "password1").unwrap();
    let wrong_password = registry.authenticate("alice", "password2").unwrap_err();
    let unknown_user = registry.authenticate("nobody", "password1").unwrap_err();
    let other_case = registry.authenticate("Alice", "password1").unwrap_err();
    assert_eq!(wrong_password, AccountError::InvalidCredentials);
    assert_eq!(unknown_user, AccountError::InvalidCredentials);
    assert_eq!(other_case, AccountError::InvalidCredentials);
    assert_eq!(wrong_password.message(), unknown_user.message());
    assert_eq!(wrong_password.message(), "Invalid username or password");

    let corrupt = UserManager::from_users(vec![plain_user("1", "eve")]).unwrap();
    assert_eq!(corrupt.authenticate("eve", "anything").unwrap_err(), AccountError::InvalidCredentials);
}

#[test]
fn verify_password_tells_right_from_wrong() {
    let user = User::new("alice".to_string(), "password1").unwrap();
    assert_eq!(user.username, "alice");
    assert_eq!(user.verify_password("password1"), Ok(true));
    assert_eq!(user.verify_password("password2"), Ok(false));
    assert_eq!(user.verify_password(""), Ok(false));
    assert_eq!(
        plain_user("1", "eve").verify_password("password1"),
        Err(AccountError::MalformedVerifier)
    );
}

#[test]
fn delete_user_removes_exactly_one() {
    let mut registry = UserManager::new();
    registry.create_user("alice".to_string(), "password1").unwrap();
    registry.create_user("bob".to_string(), "password2").unwrap();
    registry.create_user("carol".to_string(), "password3").unwrap();
    assert_eq!(registry.delete_user("Bob"), Err(AccountError::UserNotFound));
    assert_eq!(registry.delete_user("nobody"), Err(AccountError::UserNotFound));
    assert_eq!(registry.get_user_count(), 3);
    assert_eq!(registry.delete_user("bob"), Ok(()));
    assert_eq!(registry.get_user_count(), 2);
    assert_eq!(registry.user_at(0).unwrap().username, "alice");
    assert_eq!(registry.user_at(1).unwrap().username, "carol");
    assert_eq!(registry.authenticate("bob", "password2").unwrap_err(), AccountError::InvalidCredentials);
    assert!(registry.authenticate("carol", "password3").is_ok());
    assert_eq!(registry.create_user("BOB".to_string(), "password4"), Ok(()));
}

#[test]
fn change_password_replaces_the_verifier() {
    let mut registry = UserManager::new();
    registry.create_user("alice".to_string(), "password1").unwrap();
    registry.create_user("bob".to_string(), "password2").unwrap();
    let before = registry.user_at(0).unwrap().clone();
    assert_eq!(registry.change_password("alice", "password1", "newpassword"), Ok(()));
    let after = registry.user_at(0).unwrap().clone();
    assert_eq!(after.id, before.id);
    assert_eq!(after.username, before.username);
    assert_eq!(after.created_at, before.created_at);
    assert_ne!(after.password_hash, before.password_hash);
    assert_ne!(after.salt, before.salt);
    assert!(registry.authenticate("alice", "newpassword").is_ok());
    assert!(registry.authenticate("alice", "password1").is_err());
    assert!(registry.authenticate("bob", "password2").is_ok());
    assert_eq!(registry.get_user_count(), 2);
}

#[test]
fn change_password_is_refused_in_order() {
    let mut registry = UserManager::new();
    registry.create_user("alice".to_string(), "password1").unwrap();
    assert_eq!(
        registry.change_password("nobody", "password1", "newpassword"),
        Err(AccountError::UserNotFound)
    );
    assert_eq!(
        registry.change_password("alice", "wrong", "new"),
        Err(AccountError::IncorrectPassword)
    );
    assert_eq!(
        registry.change_password("alice", "password1", "new"),
        invalid(ValidationError::PasswordTooShort)
    );
    assert_eq!(
        registry.change_password("alice", "password1", &"n".repeat(129)),
        invalid(ValidationError::PasswordTooLong)
    );
    assert!(registry.authenticate("alice", "password1").is_ok());

    let mut corrupt = UserManager::from_users(vec![plain_user("1", "eve")]).unwrap();
    assert_eq!(
        corrupt.change_password("eve", "password1", "newpassword"),
        Err(AccountError::MalformedVerifier)
    );
}

#[test]
fn from_users_refuses_duplicates() {
    let registry = UserManager::from_users(vec![
        plain_user("1", "alice"),
        plain_user("2", "bob"),
        plain_user("3", "carol"),
    ])
    .unwrap();
    assert_eq!(registry.get_user_count(), 3);
    assert_eq!(registry.user_at(1).unwrap().id, "2");
    assert!(UserManager::from_users(vec![plain_user("1", "alice"), plain_user("2", "Alice")])
        .is_none());
    assert!(UserManager::from_users(vec![
        plain_user("1", "alice"),
        plain_user("2", "bob"),
        plain_user("3", "BOB"),
    ])
    .is_none());
    assert!(UserManager::from_users(vec![
        plain_user("1", "alice"),
        plain_user("2", "bob"),
        plain_user("1", "carol"),
    ])
    .is_none());
    assert_eq!(UserManager::from_users(Vec::new()).unwrap().get_user_count(), 0);
}

#[test]
fn add_user_admits_free_names_and_ids() {
    let mut registry = UserManager::new();
    assert_eq!(registry.add_user(plain_user("1", "alice")), Ok(()));
    assert_eq!(registry.add_user(plain_user("2", "bob")), Ok(()));
    assert_eq!(registry.get_user_count(), 2);
    assert_eq!(registry.user_at(1).unwrap().id, "2");
    assert_eq!(registry.add_user(plain_user("1", "carol")), Err(AccountError::IdCollision));
    assert_eq!(
        registry.add_user(plain_user("3", "ALICE")),
        invalid(ValidationError::DuplicateUsername)
    );
    assert_eq!(
        registry.add_user(plain_user("1", "Bob")),
        invalid(ValidationError::DuplicateUsername)
    );
    assert_eq!(registry.add_user(plain_user("3", "c")), invalid(ValidationError::UsernameTooShort));
    assert_eq!(
        registry.add_user(plain_user("3", "c d e")),
        invalid(ValidationError::InvalidUsernameCharacters)
    );
    assert_eq!(registry.add_user(plain_user("3", "  ")), invalid(ValidationError::EmptyUsername));
    assert_eq!(registry.get_user_count(), 2);
    assert_eq!(registry.add_user(plain_user("3", "carol")), Ok(()));
    assert_eq!(registry.get_user_count(), 3);
}

#[test]
fn with_verifier_assembles_or_fails() {
    let created = Timestamp { secs: 9, nanos: 1 };
    let user = User::with_verifier(
        "id-1".to_string(),
        "alice".to_string(),
        Some(("hash".to_string(), "salt".to_string())),
        created,
    )
    .unwrap();
    assert_eq!(user.id, "id-1");
    assert_eq!(user.username, "alice");
    assert_eq!(user.password_hash, "hash");
    assert_eq!(user.salt, "salt");
    assert_eq!(user.created_at, created);
    let failed = User::with_verifier("id-1".to_string(), "alice".to_string(), None, created);
    assert_eq!(failed.unwrap_err(), AccountError::HashingFailed);
}

#[test]
fn replace_verifier_changes_hash_and_salt_only() {
    let mut registry =
        UserManager::from_users(vec![plain_user("1", "alice"), plain_user("2", "bob")]).unwrap();
    let pair = Some(("new-hash".to_string(), "new-salt".to_string()));
    assert_eq!(registry.replace_verifier("carol", pair.clone()), Err(AccountError::UserNotFound));
    assert_eq!(registry.replace_verifier("Bob", pair.clone()), Err(AccountError::UserNotFound));
    assert_eq!(registry.replace_verifier("bob", None), Err(AccountError::HashingFailed));
    assert_eq!(registry.replace_verifier("carol", None), Err(AccountError::UserNotFound));
    assert_eq!(registry.user_at(1).unwrap().password_hash, "unreadable");
    assert_eq!(registry.replace_verifier("bob", pair), Ok(()));
    let bob = registry.user_at(1).unwrap();
    assert_eq!(bob.id, "2");
    assert_eq!(bob.username, "bob");
    assert_eq!(bob.password_hash, "new-hash");
    assert_eq!(bob.salt, "new-salt");
    assert_eq!(bob.created_at, Timestamp { secs: 1, nanos: 2 });
    let alice = registry.user_at(0).unwrap();
    assert_eq!(alice.password_hash, "unreadable");
    assert_eq!(alice.salt, "salt");
    assert_eq!(registry.get_user_count(), 2);
}

#[test]
fn clone_copies_the_registry() {
    let mut registry = UserManager::new();
    registry.create_user("alice".to_string(), "password1").unwrap();
    let mut copy = registry.clone();
    assert_eq!(copy.get_user_count(), 1);
    assert!(copy.authenticate("alice", "password1").is_ok());
    copy.create_user("bob".to_string(), "password2").unwrap();
    assert_eq!(copy.get_user_count(), 2);
    assert_eq!(registry.get_user_count(), 1);
}
