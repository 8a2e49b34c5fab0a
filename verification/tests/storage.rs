use secure_notes::collection::NoteCollection;
use secure_notes::crypto::{plan_new_user, CryptoManager, VerifierStep};
use secure_notes::errors::{CryptoError, StorageError};
use secure_notes::note::Note;
use secure_notes::crypto::{InitializationOutcome, PasswordChange, SecurityMetadata};
use secure_notes::storage::{
    DirEntry, LegacyLoad, LoadedNotes, MigrationPlan, StorageManager, StorageStep,
};
use secure_notes::time::Timestamp;

fn strings(items: &[&str]) -> Vec<String> {
    items.iter().map(|s| s.to_string()).collect()
}

fn ready_session() -> CryptoManager {
    let mut session = CryptoManager::new();
    session
        .complete_initialization(
            "u1",
            plan_new_user(1, 2, vec!["user:alice".to_string()]),
            Some(vec![7u8; 32]),
            VerifierStep::NotNeeded,
        )
        .unwrap();
    session
}

fn one_note() -> NoteCollection {
    let mut notes = NoteCollection::new();
    notes.insert(Note::with_id_at("n1".into(), "T".into(), Timestamp { secs: 1, nanos: 0 }));
    notes
}

fn serialized(loaded: LoadedNotes) -> Vec<u8> {
    match loaded {
        LoadedNotes::Serialized(bytes) => bytes,
        LoadedNotes::Empty => panic!("nothing was loaded"),
    }
}

#[test]
fn paths_follow_the_layout() {
    let store = StorageManager::new("/cfg/secure_notes".to_string());
    assert_eq!(store.data_dir(), "/cfg/secure_notes");
    assert_eq!(store.user_dir("u1"), strings(&["/cfg/secure_notes", "users", "u1"]));
    assert_eq!(
        store.user_notes_file("u1"),
        strings(&["/cfg/secure_notes", "users", "u1", "notes.enc"])
    );
    assert_eq!(
        store.verifier_file("u1"),
        strings(&["/cfg/secure_notes", "users", "u1", "auth.hash"])
    );
    assert_eq!(
        store.metadata_file("u1"),
        strings(&["/cfg/secure_notes", "users", "u1", "security.meta"])
    );
    assert_eq!(store.legacy_notes_file(), strings(&["/cfg/secure_notes", "notes.enc"]));
    assert_eq!(store.legacy_backup_file(), strings(&["/cfg/secure_notes", "notes.enc.backup"]));
}

#[test]
fn empty_state_load() {
    let store = StorageManager::new("base".to_string());
    let fresh = CryptoManager::new();
    assert!(matches!(store.load_user_notes(None, &fresh), Ok(LoadedNotes::Empty)));
    assert!(matches!(store.load_notes(None, &fresh), Ok(LoadedNotes::Empty)));
    let session = ready_session();
    assert!(matches!(store.load_user_notes(None, &session), Ok(LoadedNotes::Empty)));
}

#[test]
fn save_then_load_returns_the_serialized_notes() {
    let store = StorageManager::new("base".to_string());
    let session = ready_session();
    let payload = br#"{"n1":{"id":"n1","title":"T","content":"C"}}"#;
    let request = store.save_user_notes("u1", payload, &session).unwrap();
    assert_eq!(request.path, strings(&["base", "users", "u1", "notes.enc"]));
    assert_eq!(request.contents.len(), 12 + payload.len() + 16);
    assert_ne!(request.contents[12..12 + payload.len()], payload[..]);
    let loaded = store.load_user_notes(Some(&request.contents), &session).unwrap();
    assert_eq!(serialized(loaded), payload.to_vec());
    let legacy = store.load_notes(Some(&request.contents), &session).unwrap();
    assert_eq!(serialized(legacy), payload.to_vec());

    let mut damaged = request.contents.clone();
    damaged[20] ^= 0x40;
    assert_eq!(
        store.load_user_notes(Some(&damaged), &session).unwrap_err(),
        StorageError::Crypto(CryptoError::AuthenticationFailure)
    );
    assert_eq!(
        store.load_user_notes(Some(&[1, 2, 3]), &session).unwrap_err(),
        StorageError::Crypto(CryptoError::InvalidFormat)
    );
    assert_eq!(
        store.load_user_notes(Some(&request.contents), &CryptoManager::new()).unwrap_err(),
        StorageError::Crypto(CryptoError::NotInitialized)
    );
    assert_eq!(
        store.save_user_notes("u1", payload, &CryptoManager::new()).unwrap_err(),
        StorageError::Crypto(CryptoError::NotInitialized)
    );
    assert_eq!(
        StorageError::Crypto(CryptoError::AuthenticationFailure).message(),
        "Decryption failed"
    );
}

#[test]
fn migration_idempotence() {
    let store = StorageManager::new("base".to_string());
    let session = ready_session();
    let payload = b"{\"n1\":{}}".to_vec();
    // the disk: the legacy file, its backup, the user's file
    let mut legacy: Option<Vec<u8>> = Some(session.encrypt(&payload).unwrap());
    let mut backup: Option<Vec<u8>> = None;
    let mut user_file: Option<Vec<u8>> = None;

    for round in 0..2 {
        let loaded = store.load_notes(legacy.as_deref(), &session).unwrap();
        let (found, bytes) = match loaded {
            LoadedNotes::Empty => (LegacyLoad::Absent, b"{}".to_vec()),
            LoadedNotes::Serialized(bytes) => (LegacyLoad::Notes(one_note()), bytes),
        };
        let plan = store.migrate_legacy_notes("u1", found, &bytes, &session).unwrap();
        match plan {
            MigrationPlan::Nothing => assert_eq!(round, 1),
            MigrationPlan::Migrate { write, rename_from, rename_to } => {
                assert_eq!(round, 0);
                assert_eq!(write.path, strings(&["base", "users", "u1", "notes.enc"]));
                assert_eq!(rename_from, strings(&["base", "notes.enc"]));
                assert_eq!(rename_to, strings(&["base", "notes.enc.backup"]));
                user_file = Some(write.contents);
                backup = legacy.take();
            }
        }
        assert!(legacy.is_none());
        assert!(backup.is_some());
        let stored = store.load_user_notes(user_file.as_deref(), &session).unwrap();
        assert_eq!(serialized(stored), payload);
    }
}

#[test]
fn migration_leaves_empty_and_absent_legacy_files_alone() {
    let store = StorageManager::new("base".to_string());
    let session = ready_session();
    assert!(matches!(
        store.migrate_legacy_notes("u1", LegacyLoad::Absent, b"{}", &session),
        Ok(MigrationPlan::Nothing)
    ));
    assert!(matches!(
        store.migrate_legacy_notes("u1", LegacyLoad::Notes(NoteCollection::new()), b"{}", &session),
        Ok(MigrationPlan::Nothing)
    ));
    assert!(matches!(
        store.migrate_legacy_notes("u1", LegacyLoad::Notes(one_note()), b"{}", &session),
        Ok(MigrationPlan::Migrate { .. })
    ));
    assert!(matches!(
        store.migrate_legacy_notes("u1", LegacyLoad::Notes(one_note()), b"{}", &CryptoManager::new()),
        Err(StorageError::Crypto(CryptoError::NotInitialized))
    ));
    assert!(matches!(
        store.migrate_legacy_notes("u1", LegacyLoad::Absent, b"{}", &CryptoManager::new()),
        Ok(MigrationPlan::Nothing)
    ));
}

#[test]
fn migration_stops_where_the_legacy_file_cannot_be_loaded() {
    let store = StorageManager::new("base".to_string());
    let session = ready_session();
    let damaged = store.load_notes(Some(&[0u8; 40]), &session).unwrap_err();
    assert_eq!(damaged, StorageError::Crypto(CryptoError::AuthenticationFailure));
    assert_eq!(
        store.migrate_legacy_notes("u1", LegacyLoad::Failed(damaged), b"{}", &session).unwrap_err(),
        StorageError::Crypto(CryptoError::AuthenticationFailure)
    );
    let unreadable = LegacyLoad::Failed(StorageError::MalformedPayload);
    assert_eq!(
        store.migrate_legacy_notes("u1", unreadable, b"{}", &session).unwrap_err(),
        StorageError::MalformedPayload
    );
    assert_eq!(StorageError::MalformedPayload.message(), "Stored notes are malformed");
}

#[test]
fn migration_writes_before_it_renames() {
    let store = StorageManager::new("base".to_string());
    let session = ready_session();
    assert!(MigrationPlan::Nothing.steps().is_empty());
    let plan =
        store.migrate_legacy_notes("u1", LegacyLoad::Notes(one_note()), b"{\"n1\":1}", &session).unwrap();
    let steps = plan.steps();
    assert_eq!(steps.len(), 2);
    match &steps[0] {
        StorageStep::Write(request) => {
            assert_eq!(request.path, strings(&["base", "users", "u1", "notes.enc"]));
            let loaded = store.load_user_notes(Some(&request.contents), &session).unwrap();
            assert_eq!(serialized(loaded), b"{\"n1\":1}".to_vec());
        }
        other => panic!("unexpected step {:?}", other),
    }
    match &steps[1] {
        StorageStep::Rename { from, to } => {
            assert_eq!(from, &strings(&["base", "notes.enc"]));
            assert_eq!(to, &strings(&["base", "notes.enc.backup"]));
        }
        other => panic!("unexpected step {:?}", other),
    }
}

fn some_metadata() -> SecurityMetadata {
    SecurityMetadata {
        version: 1,
        created_timestamp: 5,
        hardware_fingerprint_hash: 6,
        hardware_components: strings(&["os:linux"]),
    }
}

#[test]
fn credentials_are_stored_verifier_first() {
    let store = StorageManager::new("base".to_string());
    let nothing = InitializationOutcome { verifier_to_store: None, metadata_to_store: None };
    assert!(store.credential_steps("u1", nothing).is_empty());

    let both = InitializationOutcome {
        verifier_to_store: Some("$argon2id$é".to_string()),
        metadata_to_store: Some(some_metadata()),
    };
    let steps = store.credential_steps("u1", both);
    assert_eq!(steps.len(), 2);
    match &steps[0] {
        StorageStep::Write(request) => {
            assert_eq!(request.path, strings(&["base", "users", "u1", "auth.hash"]));
            assert_eq!(request.contents, "$argon2id$é".as_bytes().to_vec());
        }
        other => panic!("unexpected step {:?}", other),
    }
    match &steps[1] {
        StorageStep::WriteMetadata { path, metadata } => {
            assert_eq!(path, &strings(&["base", "users", "u1", "security.meta"]));
            assert_eq!(metadata.created_timestamp, 5);
            assert_eq!(metadata.hardware_components, strings(&["os:linux"]));
        }
        other => panic!("unexpected step {:?}", other),
    }

    let metadata_only =
        InitializationOutcome { verifier_to_store: None, metadata_to_store: Some(some_metadata()) };
    let steps = store.credential_steps("u1", metadata_only);
    assert_eq!(steps.len(), 1);
    assert!(matches!(&steps[0], StorageStep::WriteMetadata { .. }));
}

#[test]
fn a_changed_password_is_stored_before_the_credentials() {
    let store = StorageManager::new("base".to_string());
    let failed = PasswordChange {
        verifier_to_store: "new".to_string(),
        initialization: Err(CryptoError::KeyDerivationFailed),
    };
    let steps = store.password_change_steps("u1", failed);
    assert_eq!(steps.len(), 1);
    match &steps[0] {
        StorageStep::Write(request) => {
            assert_eq!(request.path, strings(&["base", "users", "u1", "auth.hash"]));
            assert_eq!(request.contents, b"new".to_vec());
        }
        other => panic!("unexpected step {:?}", other),
    }

    let first_time = PasswordChange {
        verifier_to_store: "new".to_string(),
        initialization: Ok(InitializationOutcome {
            verifier_to_store: Some("newer".to_string()),
            metadata_to_store: Some(some_metadata()),
        }),
    };
    let steps = store.password_change_steps("u1", first_time);
    assert_eq!(steps.len(), 3);
    assert!(matches!(&steps[0], StorageStep::Write(r) if r.contents == b"new".to_vec()));
    assert!(matches!(&steps[1], StorageStep::Write(r) if r.contents == b"newer".to_vec()));
    assert!(matches!(&steps[2], StorageStep::WriteMetadata { .. }));
}

#[test]
fn delete_user_data_is_a_no_op_when_absent() {
    let store = StorageManager::new("base".to_string());
    assert_eq!(store.delete_user_data("u1", true), Some(strings(&["base", "users", "u1"])));
    assert_eq!(store.delete_user_data("u1", false), None);
}

#[test]
fn data_size_sums_regular_files() {
    let store = StorageManager::new("base".to_string());
    assert_eq!(store.get_user_data_size(None), 0);
    assert_eq!(store.get_user_data_size(Some(&Vec::new())), 0);
    let entries = vec![
        DirEntry { is_file: true, size: 120 },
        DirEntry { is_file: false, size: 4096 },
        DirEntry { is_file: true, size: 7 },
        DirEntry { is_file: true, size: 0 },
    ];
    assert_eq!(store.get_user_data_size(Some(&entries)), 127);
    let huge = vec![
        DirEntry { is_file: true, size: u64::MAX - 1 },
        DirEntry { is_file: true, size: 1 },
    ];
    assert_eq!(store.get_user_data_size(Some(&huge)), u64::MAX);
    let beyond = vec![
        DirEntry { is_file: true, size: u64::MAX },
        DirEntry { is_file: true, size: 5 },
        DirEntry { is_file: false, size: 5 },
    ];
    assert_eq!(store.get_user_data_size(Some(&beyond)), u64::MAX);
}
