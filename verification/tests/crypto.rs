use argon2::{Argon2, PasswordHash, PasswordVerifier};
use chacha20poly1305::aead::{Aead, KeyInit};
use chacha20poly1305::{ChaCha20Poly1305, Key, Nonce};
use secure_notes::crypto::{
    derive_secure_key, frame_blob, plan_existing_user, plan_new_user, reconcile_fingerprint,
    security_report, split_blob, CryptoManager, FingerprintVerdict, InitializationOutcome, SecurityMetadata,
    SessionState, StoredCredentials, StoredMetadata, VerifierStep,
};
use secure_notes::errors::CryptoError;
use secure_notes::fingerprint::{
    generate_hardware_salt, generate_stable_hardware_fingerprint, HardwareEnvironment,
};

fn strings(items: &[&str]) -> Vec<String> {
    items.iter().map(|s| s.to_string()).collect()
}

fn sample_env() -> HardwareEnvironment {
    HardwareEnvironment {
        user: Some("alice".to_string()),
        username: None,
        home: Some("/home/alice".to_string()),
        userprofile: None,
        os: "linux".to_string(),
        arch: "x86_64".to_string(),
        computername: None,
        hostname: Some("workstation".to_string()),
        name: None,
    }
}

fn renamed_machine() -> HardwareEnvironment {
    let mut env = sample_env();
    env.hostname = Some("laptop".to_string());
    env
}

fn other_account() -> HardwareEnvironment {
    let mut env = sample_env();
    env.user = Some("mallory".to_string());
    env
}

// The key that "correct horse" derives on the machine of `sample_env`, computed once.
const KNOWN_KEY: [u8; 32] = [
    174, 149, 235, 145, 16, 35, 126, 213, 221, 129, 71, 175, 228, 1, 30, 193, 53, 69, 15, 154, 240,
    55, 164, 111, 244, 138, 34, 175, 99, 158, 130, 100,
];

fn known_cipher() -> ChaCha20Poly1305 {
    ChaCha20Poly1305::new(Key::from_slice(&KNOWN_KEY))
}

// A blob as the library frames it, made outside the library under the known key.
fn known_blob(plaintext: &[u8]) -> Vec<u8> {
    let mut blob = vec![9u8; 12];
    blob.extend(known_cipher().encrypt(Nonce::from_slice(&[9u8; 12]), plaintext).unwrap());
    blob
}

// A verifier of "correct horse", made once with the argon2 crate.
const KNOWN_VERIFIER: &str =
    "$argon2id$v=19$m=19456,t=2,p=1$c29tZXNhbHRzb21lc2FsdA$k9ohroejZy1PN5E1SbHNPug6vB8eQAahb5SOAp6iGF4";

// What a first initialization with "correct horse" on this machine leaves in storage.
fn stored_on(env: &HardwareEnvironment, created: u64) -> StoredCredentials {
    let (hash, components) = generate_stable_hardware_fingerprint(env);
    StoredCredentials {
        verifier: Some(KNOWN_VERIFIER.to_string()),
        metadata: StoredMetadata::Present(SecurityMetadata {
            version: 1,
            created_timestamp: created,
            hardware_fingerprint_hash: hash,
            hardware_components: components,
        }),
    }
}

fn nothing_stored() -> StoredCredentials {
    StoredCredentials { verifier: None, metadata: StoredMetadata::Missing }
}

// A first initialization, key derivation and all.
fn ready_session(password: &str) -> (CryptoManager, InitializationOutcome) {
    let mut session = CryptoManager::new();
    let outcome = session
        .initialize_for_user("user-1", password, nothing_stored(), &sample_env(), 1_700_000_000)
        .unwrap();
    (session, outcome)
}

// The session that "correct horse" leads to on the machine of `sample_env`, put
// together from the known key.
fn known_session() -> CryptoManager {
    let (hash, components) = generate_stable_hardware_fingerprint(&sample_env());
    let plan = plan_new_user(1_700_000_000, hash, components);
    let mut session = CryptoManager::new();
    session
        .complete_initialization("user-1", plan, Some(KNOWN_KEY.to_vec()), VerifierStep::NotNeeded)
        .unwrap();
    session
}

#[test]
fn new_session_is_uninitialized() {
    let session = CryptoManager::new();
    assert_eq!(session.state(), SessionState::Uninitialized);
    assert!(!session.is_ready());
    assert_eq!(session.encrypt(b"data"), Err(CryptoError::NotInitialized));
    assert_eq!(session.decrypt(&[0u8; 40]), Err(CryptoError::NotInitialized));
    assert_eq!(session.decrypt(&[0u8; 4]), Err(CryptoError::NotInitialized));
    assert_eq!(
        session.encrypt_with_nonce(&[0u8; 12], b"data"),
        Err(CryptoError::NotInitialized)
    );
    assert!(session.get_security_info().is_none());
    assert!(session.security_audit(&sample_env()).is_empty());
    assert!(session.user_id().is_none());
    assert_eq!(
        session.delete_user_crypto_data("/cfg", "user-1", true),
        Some(strings(&["/cfg", "users", "user-1"]))
    );
    assert_eq!(session.delete_user_crypto_data("/cfg", "user-1", false), None);
}

#[test]
fn first_initialization_creates_credentials() {
    let (session, outcome) = ready_session("correct horse");
    assert!(session.is_ready());
    assert_eq!(session.state(), SessionState::Ready);
    assert_eq!(session.user_id(), Some("user-1"));
    let verifier = outcome.verifier_to_store.clone().unwrap();
    assert!(verifier.starts_with("$argon2id$"));
    let parsed = PasswordHash::new(&verifier).unwrap();
    assert!(Argon2::default().verify_password(b"correct horse", &parsed).is_ok());
    let metadata = outcome.metadata_to_store.as_ref().unwrap();
    assert_eq!(metadata.version, 1);
    assert_eq!(metadata.created_timestamp, 1_700_000_000);
    let (hash, components) = generate_stable_hardware_fingerprint(&sample_env());
    assert_eq!(metadata.hardware_fingerprint_hash, hash);
    assert_eq!(metadata.hardware_components, components);
}

#[test]
fn round_trip_returns_the_plaintext() {
    let session = known_session();
    let long = vec![0x5au8; 100_000];
    let payloads: Vec<&[u8]> = vec![b"", b"a", b"hello notes", &[0u8, 255, 1, 254], &long];
    for payload in payloads {
        let blob = session.encrypt(payload).unwrap();
        assert_eq!(blob.len(), 12 + payload.len() + 16);
        assert_eq!(session.decrypt(&blob).unwrap(), payload.to_vec());
    }
}

#[test]
fn encrypt_draws_a_fresh_nonce_each_time() {
    let session = known_session();
    let first = session.encrypt(b"same text").unwrap();
    let second = session.encrypt(b"same text").unwrap();
    assert_ne!(first[..12], second[..12]);
    assert_ne!(first, second);
    assert_eq!(session.decrypt(&first).unwrap(), b"same text".to_vec());
    assert_eq!(session.decrypt(&second).unwrap(), b"same text".to_vec());
}

#[test]
fn blob_is_nonce_then_ciphertext_under_the_derived_key() {
    let session = known_session();
    let nonce = [7u8; 12];
    let blob = session.encrypt_with_nonce(&nonce, b"hello notes").unwrap();
    assert_eq!(blob[..12], nonce);
    let expected = known_cipher().encrypt(Nonce::from_slice(&nonce), b"hello notes".as_ref()).unwrap();
    assert_eq!(blob[12..], expected[..]);
    assert_ne!(blob[12..23], b"hello notes"[..]);
    assert_eq!(session.encrypt_with_nonce(&nonce, b"hello notes").unwrap(), blob);
    assert_eq!(session.decrypt(&known_blob(b"from outside")).unwrap(), b"from outside".to_vec());
}

#[test]
fn derive_secure_key_is_argon2id_with_the_hardware_salt() {
    let (hash, _) = generate_stable_hardware_fingerprint(&sample_env());
    assert_eq!(hash, 15671401376924326889);
    let key = derive_secure_key("correct horse", hash).unwrap();
    assert_eq!(key, KNOWN_KEY.to_vec());
}

#[test]
fn derived_key_matches_the_argon2_crate() {
    // a direct call of the crate with the documented costs and the hardware salt
    let params = argon2::Params::new(131072, 3, 4, Some(32)).unwrap();
    let (hash, _) = generate_stable_hardware_fingerprint(&sample_env());
    let mut expected = [0u8; 32];
    Argon2::new(argon2::Algorithm::Argon2id, argon2::Version::V0x13, params)
        .hash_password_into(b"correct horse", &generate_hardware_salt(hash), &mut expected)
        .unwrap();
    assert_eq!(expected, KNOWN_KEY);
}

#[test]
fn tampering_is_detected() {
    let session = known_session();
    let blob = session.encrypt(b"secret note content").unwrap();
    for position in 0..blob.len() {
        for bit in [0u8, 3, 7] {
            let mut altered = blob.clone();
            altered[position] ^= 1 << bit;
            assert_eq!(session.decrypt(&altered), Err(CryptoError::AuthenticationFailure));
        }
    }
    let mut truncated = blob.clone();
    truncated.pop();
    assert_eq!(session.decrypt(&truncated), Err(CryptoError::AuthenticationFailure));
    let mut extended = blob.clone();
    extended.push(0);
    assert_eq!(session.decrypt(&extended), Err(CryptoError::AuthenticationFailure));
}

#[test]
fn short_blobs_are_malformed() {
    let session = known_session();
    assert_eq!(session.decrypt(&[]), Err(CryptoError::InvalidFormat));
    assert_eq!(session.decrypt(&[1u8; 11]), Err(CryptoError::InvalidFormat));
    assert_eq!(session.decrypt(&[1u8; 12]), Err(CryptoError::AuthenticationFailure));
    assert_eq!(session.decrypt(&[1u8; 27]), Err(CryptoError::AuthenticationFailure));
}

#[test]
fn later_initialization_gives_the_same_key() {
    let mut session = CryptoManager::new();
    let outcome = session
        .initialize_for_user(
            "user-1",
            "correct horse",
            stored_on(&sample_env(), 3),
            &sample_env(),
            5,
        )
        .unwrap();
    assert!(outcome.verifier_to_store.is_none());
    assert!(outcome.metadata_to_store.is_none());
    assert!(session.is_ready());
    assert_eq!(session.decrypt(&known_blob(b"kept")).unwrap(), b"kept".to_vec());
    assert!(session.get_security_info().unwrap().contains("\nCreated: 1970-01-01 00:00:03 UTC\n"));
}

#[test]
fn known_verifier_belongs_to_the_known_password() {
    let parsed = PasswordHash::new(KNOWN_VERIFIER).unwrap();
    assert!(Argon2::default().verify_password(b"correct horse", &parsed).is_ok());
    assert!(Argon2::default().verify_password(b"wrong horse", &parsed).is_err());
}

#[test]
fn wrong_password_is_rejected() {
    let mut session = CryptoManager::new();
    let result = session.initialize_for_user(
        "user-1",
        "wrong horse",
        stored_on(&sample_env(), 3),
        &sample_env(),
        5,
    );
    assert_eq!(result.unwrap_err(), CryptoError::WrongPassword);
    assert_eq!(session.state(), SessionState::Failed);
    assert!(!session.is_ready());
    assert_eq!(session.encrypt(b"x"), Err(CryptoError::NotInitialized));
    assert_eq!(session.decrypt(&known_blob(b"kept")), Err(CryptoError::NotInitialized));
}

#[test]
fn failure_clears_a_ready_session() {
    let mut session = known_session();
    assert!(session.is_ready());
    let result = session.initialize_for_user(
        "user-1",
        "wrong horse",
        stored_on(&sample_env(), 3),
        &sample_env(),
        5,
    );
    assert_eq!(result.unwrap_err(), CryptoError::WrongPassword);
    assert_eq!(session.state(), SessionState::Failed);
    assert!(session.user_id().is_none());
    assert!(session.get_security_info().is_none());
    assert_eq!(session.decrypt(&known_blob(b"kept")), Err(CryptoError::NotInitialized));
}

#[test]
fn malformed_stored_records_are_reported() {
    let mut session = CryptoManager::new();
    let stored = StoredCredentials {
        verifier: Some("not a hash".to_string()),
        metadata: StoredMetadata::Malformed,
    };
    let result = session.initialize_for_user("user-1", "correct horse", stored, &sample_env(), 5);
    assert_eq!(result.unwrap_err(), CryptoError::MalformedVerifier);
    assert_eq!(session.state(), SessionState::Failed);

    let stored = StoredCredentials {
        verifier: Some(KNOWN_VERIFIER.to_string()),
        metadata: StoredMetadata::Malformed,
    };
    let wrong = session.initialize_for_user("user-1", "wrong horse", stored, &sample_env(), 5);
    assert_eq!(wrong.unwrap_err(), CryptoError::WrongPassword);
    let stored = StoredCredentials {
        verifier: Some(KNOWN_VERIFIER.to_string()),
        metadata: StoredMetadata::Malformed,
    };
    let right = session.initialize_for_user("user-1", "correct horse", stored, &sample_env(), 5);
    assert_eq!(right.unwrap_err(), CryptoError::MalformedMetadata);
    assert_eq!(session.state(), SessionState::Failed);
}

#[test]
fn critical_change_refuses_the_key() {
    let mut session = CryptoManager::new();
    let result = session.initialize_for_user(
        "user-1",
        "correct horse",
        stored_on(&sample_env(), 3),
        &other_account(),
        5,
    );
    let error = result.unwrap_err();
    assert_eq!(
        error,
        CryptoError::CriticalHardwareChange(strings(&["Component 4: 'user:alice' -> 'user:mallory'"]))
    );
    assert_eq!(
        error.message(),
        "Critical hardware components changed: Component 4: 'user:alice' -> 'user:mallory'"
    );
    assert_eq!(session.state(), SessionState::Failed);
    assert_eq!(session.encrypt(b"x"), Err(CryptoError::NotInitialized));
}

#[test]
fn tolerable_drift_updates_the_metadata() {
    let mut session = CryptoManager::new();
    let drifted = session
        .initialize_for_user(
            "user-1",
            "correct horse",
            stored_on(&sample_env(), 1_700_000_000),
            &renamed_machine(),
            9,
        )
        .unwrap();
    assert!(drifted.verifier_to_store.is_none());
    let updated = drifted.metadata_to_store.unwrap();
    let (hash, components) = generate_stable_hardware_fingerprint(&renamed_machine());
    assert_eq!(updated.hardware_fingerprint_hash, hash);
    assert_eq!(updated.hardware_components, components);
    assert_eq!(updated.created_timestamp, 1_700_000_000);
    assert_eq!(updated.version, 1);
    assert!(session.is_ready());
    // the key is bound to the fingerprint, so the drifted machine has another key
    assert_eq!(session.decrypt(&known_blob(b"kept")), Err(CryptoError::AuthenticationFailure));
    assert!(session.security_audit(&renamed_machine()).is_empty());
}

#[test]
fn reconcile_upgrades_legacy_records() {
    let legacy = SecurityMetadata {
        version: 1,
        created_timestamp: 77,
        hardware_fingerprint_hash: 1,
        hardware_components: Vec::new(),
    };
    let current = strings(&["arch:x86_64", "os:linux", "user:a"]);
    match reconcile_fingerprint(&legacy, 99, &current) {
        FingerprintVerdict::Refreshed(m) => {
            assert_eq!(m.version, 1);
            assert_eq!(m.created_timestamp, 77);
            assert_eq!(m.hardware_fingerprint_hash, 99);
            assert_eq!(m.hardware_components, current);
        }
        other => panic!("unexpected verdict {:?}", other),
    }
}

#[test]
fn reconcile_compares_hash_then_components() {
    let stored = SecurityMetadata {
        version: 3,
        created_timestamp: 77,
        hardware_fingerprint_hash: 10,
        hardware_components: strings(&["arch:x86_64", "computer:a", "os:linux", "user:a"]),
    };
    let same = strings(&["arch:x86_64", "computer:a", "os:linux", "user:a"]);
    assert!(matches!(reconcile_fingerprint(&stored, 10, &same), FingerprintVerdict::Unchanged));
    // equal hashes settle it, whatever the components say
    let other = strings(&["arch:arm", "computer:a", "os:linux", "user:a"]);
    assert!(matches!(reconcile_fingerprint(&stored, 10, &other), FingerprintVerdict::Unchanged));
    // another hash over the same components: the stale hash is replaced
    match reconcile_fingerprint(&stored, 11, &same) {
        FingerprintVerdict::Refreshed(m) => {
            assert_eq!(m.hardware_fingerprint_hash, 11);
            assert_eq!(m.hardware_components, same);
            assert_eq!(m.created_timestamp, 77);
        }
        other => panic!("unexpected verdict {:?}", other),
    }
    // a shorter current list that lacks critical components is refused
    let shorter = strings(&["arch:x86_64", "computer:a"]);
    match reconcile_fingerprint(&stored, 11, &shorter) {
        FingerprintVerdict::Critical(notes) => assert!(notes.is_empty()),
        other => panic!("unexpected verdict {:?}", other),
    }
    // a stored list that is a prefix of the current one, with a new critical component
    let prefix = SecurityMetadata {
        version: 1,
        created_timestamp: 1,
        hardware_fingerprint_hash: 1,
        hardware_components: strings(&["arch:x86_64"]),
    };
    let longer = strings(&["arch:x86_64", "user:mallory"]);
    assert!(matches!(
        reconcile_fingerprint(&prefix, 2, &longer),
        FingerprintVerdict::Critical(_)
    ));
    // a stored list that is a prefix of the current one, with nothing critical added
    let harmless = strings(&["arch:x86_64", "computer:b"]);
    match reconcile_fingerprint(&prefix, 2, &harmless) {
        FingerprintVerdict::Refreshed(m) => {
            assert_eq!(m.hardware_fingerprint_hash, 2);
            assert_eq!(m.hardware_components, harmless);
        }
        other => panic!("unexpected verdict {:?}", other),
    }
    match reconcile_fingerprint(&stored, 11, &other) {
        FingerprintVerdict::Critical(notes) => {
            assert_eq!(notes, strings(&["Component 0: 'arch:x86_64' -> 'arch:arm'"]));
        }
        other => panic!("unexpected verdict {:?}", other),
    }
    let renamed = strings(&["arch:x86_64", "computer:b", "os:linux", "user:a"]);
    match reconcile_fingerprint(&stored, 11, &renamed) {
        FingerprintVerdict::Refreshed(m) => {
            assert_eq!(m.version, 3);
            assert_eq!(m.created_timestamp, 77);
            assert_eq!(m.hardware_fingerprint_hash, 11);
            assert_eq!(m.hardware_components, renamed);
        }
        other => panic!("unexpected verdict {:?}", other),
    }
}

#[test]
fn legacy_metadata_is_upgraded_on_login() {
    let stored = StoredCredentials {
        verifier: Some(KNOWN_VERIFIER.to_string()),
        metadata: StoredMetadata::Present(SecurityMetadata {
            version: 1,
            created_timestamp: 12,
            hardware_fingerprint_hash: 0,
            hardware_components: Vec::new(),
        }),
    };
    let mut session = CryptoManager::new();
    let upgraded = session
        .initialize_for_user("user-1", "correct horse", stored, &other_account(), 9)
        .unwrap();
    let metadata = upgraded.metadata_to_store.unwrap();
    let (hash, components) = generate_stable_hardware_fingerprint(&other_account());
    assert_eq!(metadata.hardware_fingerprint_hash, hash);
    assert_eq!(metadata.hardware_components, components);
    assert_eq!(metadata.created_timestamp, 12);
}

#[test]
fn audit_reports_drift_without_changing_anything() {
    let session = known_session();
    assert!(session.security_audit(&sample_env()).is_empty());
    let warnings = session.security_audit(&renamed_machine());
    assert_eq!(
        warnings,
        strings(&[
            "Hardware fingerprint has changed since last login",
            "Changed: computer:workstation -> computer:laptop",
        ])
    );
    assert_eq!(session.security_audit(&renamed_machine()), warnings);
    assert!(session.security_audit(&sample_env()).is_empty());
}

#[test]
fn security_info_lists_the_parameters() {
    let session = known_session();
    assert_eq!(
        session.get_security_info().unwrap(),
        "Security Level: Standard (Production)\nVersion: 1\nCreated: 2023-11-14 22:13:20 UTC\n\
         Hardware Bound: Yes\nMemory Cost: 128 MB\nIterations: 3\nParallelism: 4\n\
         Hardware Components: arch:x86_64, computer:workstation, home:/home/alice, os:linux, user:alice"
    );
}

#[test]
fn security_info_of_odd_timestamps() {
    let (hash, _) = generate_stable_hardware_fingerprint(&sample_env());
    let mut session = CryptoManager::new();
    session
        .complete_initialization(
            "user-1",
            plan_new_user(u64::MAX, hash, Vec::new()),
            Some(KNOWN_KEY.to_vec()),
            VerifierStep::NotNeeded,
        )
        .unwrap();
    let info = session.get_security_info().unwrap();
    assert!(info.contains("\nCreated: Unknown\n"));
    assert!(info.ends_with("\nHardware Components: Legacy format (upgraded)"));
}

#[test]
fn first_session_matches_the_known_session() {
    let (session, _) = ready_session("correct horse");
    let blob = known_session().encrypt(b"one key").unwrap();
    assert_eq!(session.decrypt(&blob).unwrap(), b"one key".to_vec());
    assert_eq!(session.get_security_info(), known_session().get_security_info());
}

#[test]
fn plan_for_a_known_user_tests_password_then_fingerprint() {
    let (hash, components) = generate_stable_hardware_fingerprint(&sample_env());
    let record = || SecurityMetadata {
        version: 1,
        created_timestamp: 5,
        hardware_fingerprint_hash: hash,
        hardware_components: components.clone(),
    };
    let (other_hash, other_components) = generate_stable_hardware_fingerprint(&other_account());
    let (drift_hash, drift_components) = generate_stable_hardware_fingerprint(&renamed_machine());

    let failed = |check, stored, h, c: &Vec<String>| plan_existing_user(check, stored, h, c).unwrap_err();
    assert_eq!(failed(None, Some(record()), hash, &components), CryptoError::MalformedVerifier);
    assert_eq!(failed(None, None, other_hash, &other_components), CryptoError::MalformedVerifier);
    assert_eq!(failed(Some(false), Some(record()), hash, &components), CryptoError::WrongPassword);
    assert_eq!(failed(Some(false), None, other_hash, &other_components), CryptoError::WrongPassword);
    assert_eq!(failed(Some(true), None, hash, &components), CryptoError::MalformedMetadata);
    assert_eq!(
        failed(Some(true), Some(record()), other_hash, &other_components),
        CryptoError::CriticalHardwareChange(strings(&["Component 4: 'user:alice' -> 'user:mallory'"]))
    );

    let same = plan_existing_user(Some(true), Some(record()), hash, &components).unwrap();
    assert_eq!(same.metadata.hardware_components, components);
    assert_eq!(same.metadata.created_timestamp, 5);
    assert!(same.metadata_to_store.is_none());

    let drifted = plan_existing_user(Some(true), Some(record()), drift_hash, &drift_components).unwrap();
    assert_eq!(drifted.metadata.hardware_fingerprint_hash, drift_hash);
    assert_eq!(drifted.metadata.hardware_components, drift_components);
    let stored = drifted.metadata_to_store.unwrap();
    assert_eq!(stored.hardware_fingerprint_hash, drift_hash);
    assert_eq!(stored.hardware_components, drift_components);
    assert_eq!(stored.created_timestamp, 5);
}

#[test]
fn plan_for_a_new_user_stores_new_metadata() {
    let plan = plan_new_user(42, 7, strings(&["a", "b"]));
    assert_eq!(plan.metadata.version, 1);
    assert_eq!(plan.metadata.created_timestamp, 42);
    assert_eq!(plan.metadata.hardware_fingerprint_hash, 7);
    assert_eq!(plan.metadata.hardware_components, strings(&["a", "b"]));
    let stored = plan.metadata_to_store.unwrap();
    assert_eq!(stored.version, 1);
    assert_eq!(stored.created_timestamp, 42);
    assert_eq!(stored.hardware_fingerprint_hash, 7);
    assert_eq!(stored.hardware_components, strings(&["a", "b"]));
}

#[test]
fn completion_needs_a_key_and_a_verifier() {
    let plan = || plan_new_user(42, 7, strings(&["a", "b"]));
    let mut session = known_session();
    let no_key = session.complete_initialization("u", plan(), None, VerifierStep::NotNeeded);
    assert_eq!(no_key.unwrap_err(), CryptoError::KeyDerivationFailed);
    assert_eq!(session.state(), SessionState::Failed);
    assert!(session.user_id().is_none());

    let short = session.complete_initialization("u", plan(), Some(vec![1u8; 31]), VerifierStep::NotNeeded);
    assert_eq!(short.unwrap_err(), CryptoError::KeyDerivationFailed);
    let long = session.complete_initialization(
        "u",
        plan(),
        Some(vec![1u8; 33]),
        VerifierStep::Made("v".to_string()),
    );
    assert_eq!(long.unwrap_err(), CryptoError::KeyDerivationFailed);
    let no_key_no_verifier = session.complete_initialization("u", plan(), None, VerifierStep::Failed);
    assert_eq!(no_key_no_verifier.unwrap_err(), CryptoError::KeyDerivationFailed);

    let no_verifier =
        session.complete_initialization("u", plan(), Some(vec![1u8; 32]), VerifierStep::Failed);
    assert_eq!(no_verifier.unwrap_err(), CryptoError::HashingFailed);
    assert_eq!(session.state(), SessionState::Failed);

    let made = session
        .complete_initialization("u", plan(), Some(vec![1u8; 32]), VerifierStep::Made("v".to_string()))
        .unwrap();
    assert_eq!(made.verifier_to_store.as_deref(), Some("v"));
    assert_eq!(made.metadata_to_store.unwrap().created_timestamp, 42);
    assert!(session.is_ready());
    assert_eq!(session.user_id(), Some("u"));
    let blob = session.encrypt(b"x").unwrap();
    assert_eq!(known_session().decrypt(&blob), Err(CryptoError::AuthenticationFailure));
    assert_eq!(session.decrypt(&blob).unwrap(), b"x".to_vec());
}

#[test]
fn security_report_of_given_parts() {
    let metadata = SecurityMetadata {
        version: 12,
        created_timestamp: 0,
        hardware_fingerprint_hash: 0,
        hardware_components: strings(&["a", "b", "c"]),
    };
    assert_eq!(
        security_report(&metadata, "some day"),
        "Security Level: Standard (Production)\nVersion: 12\nCreated: some day\n\
         Hardware Bound: Yes\nMemory Cost: 128 MB\nIterations: 3\nParallelism: 4\n\
         Hardware Components: a, b, c"
    );
}

#[test]
fn blobs_are_framed_and_split() {
    assert_eq!(frame_blob(&[1, 2, 3], Some(vec![4, 5])), Ok(vec![1, 2, 3, 4, 5]));
    assert_eq!(frame_blob(&[1, 2, 3], Some(Vec::new())), Ok(vec![1, 2, 3]));
    assert_eq!(frame_blob(&[1, 2, 3], None), Err(CryptoError::EncryptionFailed));

    let blob: Vec<u8> = (0u8..20).collect();
    let (nonce, ciphertext) = split_blob(&blob).unwrap();
    assert_eq!(nonce, &blob[..12]);
    assert_eq!(ciphertext, &blob[12..]);
    let (nonce, ciphertext) = split_blob(&blob[..12]).unwrap();
    assert_eq!(nonce, &blob[..12]);
    assert!(ciphertext.is_empty());
    assert_eq!(split_blob(&blob[..11]).unwrap_err(), CryptoError::InvalidFormat);
    assert_eq!(split_blob(&[]).unwrap_err(), CryptoError::InvalidFormat);
}

#[test]
fn change_password_rekeys_the_session() {
    let mut session = CryptoManager::new();
    let change = session
        .change_password(
            "correct horse",
            "battery staple",
            "user-1",
            stored_on(&sample_env(), 3),
            &sample_env(),
            8,
        )
        .unwrap();
    assert!(change.verifier_to_store.starts_with("$argon2id$"));
    assert_ne!(change.verifier_to_store, KNOWN_VERIFIER);
    let initialization = change.initialization.unwrap();
    assert!(initialization.verifier_to_store.is_none());
    assert!(initialization.metadata_to_store.is_none());
    assert!(session.is_ready());
    // the new key is not the key of the old password
    assert_eq!(session.decrypt(&known_blob(b"old")), Err(CryptoError::AuthenticationFailure));
    let fresh = session.encrypt(b"new").unwrap();
    assert_eq!(session.decrypt(&fresh).unwrap(), b"new".to_vec());
}

#[test]
fn change_password_needs_the_old_password() {
    let mut session = known_session();
    let refused = session.change_password(
        "wrong horse",
        "battery staple",
        "user-1",
        stored_on(&sample_env(), 3),
        &sample_env(),
        8,
    );
    assert_eq!(refused.unwrap_err(), CryptoError::IncorrectCurrentPassword);
    assert!(session.is_ready());
    assert_eq!(session.decrypt(&known_blob(b"old")).unwrap(), b"old".to_vec());

    let missing = session.change_password(
        "correct horse",
        "battery staple",
        "user-1",
        nothing_stored(),
        &sample_env(),
        8,
    );
    assert_eq!(missing.unwrap_err(), CryptoError::UserConfigurationNotFound);
    let garbled = StoredCredentials {
        verifier: Some("garbage".to_string()),
        metadata: StoredMetadata::Missing,
    };
    let malformed =
        session.change_password("correct horse", "battery staple", "user-1", garbled, &sample_env(), 8);
    assert_eq!(malformed.unwrap_err(), CryptoError::MalformedVerifier);
    assert!(session.is_ready());
}
