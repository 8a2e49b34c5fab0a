use secure_notes::crypto::{CryptoManager, StoredCredentials, StoredMetadata};
use secure_notes::errors::{AccountError, CryptoError};
use secure_notes::fingerprint::HardwareEnvironment;
use secure_notes::phc::{has_lanes_in_range, make_verifier, test_password};
use secure_notes::time::Timestamp;
use secure_notes::user::{User, UserManager};

// A verifier of "password1", made once with the argon2 crate.
const KNOWN_VERIFIER: &str =
    "$argon2id$v=19$m=19456,t=2,p=1$c29tZXNhbHRzb21lc2FsdA$PzZAw6QhdqnMdxGrkdTqxWGh8ErVVj6xVzn2mgcPrks";

// The same verifier with a degree of parallelism whose eightfold does not fit in 32 bits.
const OVERFLOWING_VERIFIER: &str =
    "$argon2id$v=19$m=19456,t=2,p=536870912$c29tZXNhbHRzb21lc2FsdA$PzZAw6QhdqnMdxGrkdTqxWGh8ErVVj6xVzn2mgcPrks";

fn user_with(verifier: &str) -> User {
    User {
        id: "u1".to_string(),
        username: "alice".to_string(),
        password_hash: verifier.to_string(),
        salt: "c29tZXNhbHRzb21lc2FsdA".to_string(),
        created_at: Timestamp { secs: 1, nanos: 0 },
    }
}

#[test]
fn lanes_are_read_wherever_they_are_named() {
    assert!(has_lanes_in_range(""));
    assert!(has_lanes_in_range("p"));
    assert!(has_lanes_in_range("p="));
    assert!(has_lanes_in_range("not a hash"));
    assert!(has_lanes_in_range(KNOWN_VERIFIER));
    assert!(has_lanes_in_range("$argon2id$v=19$m=19456,t=2,p=16777215$salt$hash"));
    assert!(!has_lanes_in_range("$argon2id$v=19$m=19456,t=2,p=16777216$salt$hash"));
    assert!(!has_lanes_in_range(OVERFLOWING_VERIFIER));
    assert!(!has_lanes_in_range("$argon2id$p=4294967295"));
    assert!(!has_lanes_in_range("$argon2id$p=99999999999999999999999999999999999999"));
    assert!(has_lanes_in_range("$argon2id$p=00000000000000000000000000000000000004"));
    assert!(!has_lanes_in_range("p=1,p=999999999"));
    assert!(!has_lanes_in_range("p=999999999,p=1"));
    assert!(has_lanes_in_range("m=999999999,t=999999999,p=2"));
    assert!(has_lanes_in_range("p=12x99999999"));
    assert!(has_lanes_in_range("p =99999999999"));
    assert!(!has_lanes_in_range("xp=99999999999"));
    assert!(!has_lanes_in_range("pp=16777216"));
}

#[test]
fn a_verifier_out_of_range_is_refused_before_the_hasher() {
    assert_eq!(test_password(OVERFLOWING_VERIFIER, "password1"), None);
    assert_eq!(test_password("garbage", "password1"), None);
    assert_eq!(test_password(KNOWN_VERIFIER, "password1"), Some(true));
    assert_eq!(test_password(KNOWN_VERIFIER, "password2"), Some(false));
    // in range for the test, refused by the hasher itself
    let rejected = KNOWN_VERIFIER.replace("p=1$", "p=16777215$");
    assert_eq!(test_password(&rejected, "password1"), Some(false));
}

#[test]
fn a_verifier_out_of_range_fails_every_caller() {
    let user = user_with(OVERFLOWING_VERIFIER);
    assert_eq!(user.verify_password("password1"), Err(AccountError::MalformedVerifier));
    let mut registry = UserManager::from_users(vec![user]).unwrap();
    assert_eq!(
        registry.authenticate("alice", "password1").unwrap_err(),
        AccountError::InvalidCredentials
    );
    assert_eq!(
        registry.change_password("alice", "password1", "password2"),
        Err(AccountError::MalformedVerifier)
    );

    let env = HardwareEnvironment {
        user: None,
        username: None,
        home: None,
        userprofile: None,
        os: "linux".to_string(),
        arch: "x86_64".to_string(),
        computername: None,
        hostname: None,
        name: None,
    };
    let stored = || StoredCredentials {
        verifier: Some(OVERFLOWING_VERIFIER.to_string()),
        metadata: StoredMetadata::Malformed,
    };
    let mut session = CryptoManager::new();
    assert_eq!(
        session.initialize_for_user("u1", "password1", stored(), &env, 1).unwrap_err(),
        CryptoError::MalformedVerifier
    );
    assert_eq!(
        session.change_password("password1", "password2", "u1", stored(), &env, 1).unwrap_err(),
        CryptoError::MalformedVerifier
    );
}

#[test]
fn a_made_verifier_verifies_its_password() {
    let (verifier, salt) = make_verifier("correct horse").unwrap();
    assert!(verifier.starts_with("$argon2id$v=19$m=19456,t=2,p=1$"));
    assert!(verifier.contains(&salt));
    assert!(has_lanes_in_range(&verifier));
    assert_eq!(test_password(&verifier, "correct horse"), Some(true));
    assert_eq!(test_password(&verifier, "wrong horse"), Some(false));
}
