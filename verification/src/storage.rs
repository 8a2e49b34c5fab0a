//! The note store: where a user's encrypted notes live, what is written
//! there, and how notes of the older single-tenant layout are moved over.
//!
//! The store decides; the caller reads and writes the files. Notes cross this
//! boundary in their serialized form, as bytes.

use crate::collection::NoteCollection;
use crate::crypto::{
    CryptoManager, InitializationOutcome, MetadataView, PasswordChange, SecurityMetadata,
    NONCE_LEN,
};
use crate::errors::{StorageError, StorageFailure};
use crate::note::NoteView;
use crate::primitives::TAG_LEN;
use crate::text::texts;
use vstd::prelude::*;
use vstd::utf8::encode_utf8;

verus! {

/// The directory that holds one directory per user.
pub open spec fn users_dir_name() -> Seq<char> {
    "users"@
}

/// The name of the file that holds a user's encrypted notes, and of the
/// legacy file.
pub open spec fn notes_file_name() -> Seq<char> {
    "notes.enc"@
}

/// The name that the legacy file is given once its notes are moved.
pub open spec fn backup_file_name() -> Seq<char> {
    "notes.enc.backup"@
}

/// The name of the file that holds a user's password verifier.
pub open spec fn verifier_file_name() -> Seq<char> {
    "auth.hash"@
}

/// The name of the file that holds a user's security metadata.
pub open spec fn metadata_file_name() -> Seq<char> {
    "security.meta"@
}

/// The components of the path of a user's directory.
pub open spec fn user_dir_path(base: Seq<char>, user_id: Seq<char>) -> Seq<Seq<char>> {
    seq![base, users_dir_name(), user_id]
}

/// The components of the path of a file in a user's directory.
pub open spec fn user_file_path(base: Seq<char>, user_id: Seq<char>, name: Seq<char>) -> Seq<
    Seq<char>,
> {
    seq![base, users_dir_name(), user_id, name]
}

/// The components of the path of a file in the base directory.
pub open spec fn base_file_path(base: Seq<char>, name: Seq<char>) -> Seq<Seq<char>> {
    seq![base, name]
}

/// A file to write in full, with owner-only permissions, after making its
/// directory.
#[derive(Debug)]
pub struct WriteRequest {
    /// The components of the file's path.
    pub path: Vec<String>,
    /// The bytes of the file.
    pub contents: Vec<u8>,
}

/// One thing that the caller does to storage. A list of steps is carried out
/// in its order, and a step that fails ends it.
#[derive(Debug)]
pub enum StorageStep {
    /// Write a file in full, with owner-only permissions, after making its
    /// directory.
    Write(WriteRequest),
    /// Write security metadata, in its stored form, as a file is written.
    WriteMetadata { path: Vec<String>, metadata: SecurityMetadata },
    /// Rename a file.
    Rename { from: Vec<String>, to: Vec<String> },
    /// Remove a directory with all it holds; nothing where it does not exist.
    RemoveTree(Vec<String>),
    /// Save the account registry.
    SaveRegistry,
}

/// A [`StorageStep`] over texts and bytes.
pub enum Step {
    Write { path: Seq<Seq<char>>, contents: Seq<u8> },
    WriteMetadata { path: Seq<Seq<char>>, metadata: MetadataView },
    Rename { from: Seq<Seq<char>>, to: Seq<Seq<char>> },
    RemoveTree(Seq<Seq<char>>),
    SaveRegistry,
}

impl View for StorageStep {
    type V = Step;

    open spec fn view(&self) -> Step {
        match self {
            StorageStep::Write(request) => Step::Write {
                path: texts(request.path@),
                contents: request.contents@,
            },
            StorageStep::WriteMetadata { path, metadata } => Step::WriteMetadata {
                path: texts(path@),
                metadata: metadata@,
            },
            StorageStep::Rename { from, to } => Step::Rename { from: texts(from@), to: texts(to@) },
            StorageStep::RemoveTree(path) => Step::RemoveTree(texts(path@)),
            StorageStep::SaveRegistry => Step::SaveRegistry,
        }
    }
}

/// The views of a list of steps.
pub open spec fn step_views(steps: Seq<StorageStep>) -> Seq<Step> {
    steps.map_values(|s: StorageStep| s@)
}

/// The steps that store what an initialization made for a user: the
/// verifier first, where one was made, then the metadata, where it is to be
/// stored.
pub open spec fn credential_step_list(
    base: Seq<char>,
    user_id: Seq<char>,
    outcome: InitializationOutcome,
) -> Seq<Step> {
    (match outcome.verifier_to_store {
        Some(v) => seq![
            Step::Write {
                path: user_file_path(base, user_id, verifier_file_name()),
                contents: encode_utf8(v@),
            },
        ],
        None => Seq::empty(),
    }) + (match outcome.metadata_to_store {
        Some(m) => seq![
            Step::WriteMetadata {
                path: user_file_path(base, user_id, metadata_file_name()),
                metadata: m@,
            },
        ],
        None => Seq::empty(),
    })
}

/// The steps that store a change of password: the new verifier first, in any
/// case, then what the initialization with the new password made, where it
/// succeeded.
pub open spec fn password_change_step_list(
    base: Seq<char>,
    user_id: Seq<char>,
    change: PasswordChange,
) -> Seq<Step> {
    seq![
        Step::Write {
            path: user_file_path(base, user_id, verifier_file_name()),
            contents: encode_utf8(change.verifier_to_store@),
        },
    ] + (match change.initialization {
        Ok(outcome) => credential_step_list(base, user_id, outcome),
        Err(_) => Seq::empty(),
    })
}

/// What a load found.
#[derive(Debug)]
pub enum LoadedNotes {
    /// No file is stored: the collection is empty.
    Empty,
    /// The decrypted file: the serialized collection.
    Serialized(Vec<u8>),
}

/// A [`LoadedNotes`] over byte sequences.
pub enum Loaded {
    Empty,
    Serialized(Seq<u8>),
}

impl View for LoadedNotes {
    type V = Loaded;

    open spec fn view(&self) -> Loaded {
        match self {
            LoadedNotes::Empty => Loaded::Empty,
            LoadedNotes::Serialized(bytes) => Loaded::Serialized(bytes@),
        }
    }
}

/// What a stored file, or its absence, loads to under a session.
pub open spec fn load_spec(crypto: CryptoManager, stored: Option<Seq<u8>>) -> Result<
    Loaded,
    StorageFailure,
> {
    match stored {
        None => Ok(Loaded::Empty),
        Some(blob) => match crypto.decrypt_spec(blob) {
            Ok(plaintext) => Ok(Loaded::Serialized(plaintext)),
            Err(failure) => Err(StorageFailure::Crypto(failure)),
        },
    }
}

/// The view of a load's result.
pub open spec fn loaded_result(res: Result<LoadedNotes, StorageError>) -> Result<
    Loaded,
    StorageFailure,
> {
    match res {
        Ok(loaded) => Ok(loaded@),
        Err(e) => Err(e@),
    }
}

/// The contents of an optional byte slice.
pub open spec fn slice_view(stored: Option<&[u8]>) -> Option<Seq<u8>> {
    match stored {
        Some(bytes) => Some(bytes@),
        None => None,
    }
}

/// What loading the legacy file came to.
#[derive(Debug)]
pub enum LegacyLoad {
    /// No legacy file exists.
    Absent,
    /// The legacy file exists and could not be decrypted or read as notes.
    Failed(StorageError),
    /// The notes that the legacy file holds.
    Notes(NoteCollection),
}

/// What a migration asks the caller to do.
#[derive(Debug)]
pub enum MigrationPlan {
    /// Nothing: there is no legacy file, or it holds no notes.
    Nothing,
    /// Write the user's notes file, then rename the legacy file.
    Migrate {
        /// The user's notes file.
        write: WriteRequest,
        /// The components of the legacy file's path.
        rename_from: Vec<String>,
        /// The components of the path that the legacy file is renamed to.
        rename_to: Vec<String>,
    },
}

impl MigrationPlan {
    /// The steps of the plan: the write of the user's notes file, then the
    /// renaming of the legacy file; none where nothing is to be done.
    pub open spec fn step_list(self) -> Seq<Step> {
        match self {
            MigrationPlan::Nothing => Seq::empty(),
            MigrationPlan::Migrate { write, rename_from, rename_to } => seq![
                Step::Write { path: texts(write.path@), contents: write.contents@ },
                Step::Rename { from: texts(rename_from@), to: texts(rename_to@) },
            ],
        }
    }

    /// The steps of the plan, in the order in which the caller takes them.
    pub fn steps(self) -> (r: Vec<StorageStep>)
        ensures
            step_views(r@) == self.step_list(),
    {
        let mut steps: Vec<StorageStep> = Vec::new();
        match self {
            MigrationPlan::Nothing => {},
            MigrationPlan::Migrate { write, rename_from, rename_to } => {
                steps.push(StorageStep::Write(write));
                steps.push(StorageStep::Rename { from: rename_from, to: rename_to });
            },
        }
        assert(step_views(steps@) =~= self.step_list());
        steps
    }
}

/// Whether legacy notes are to be moved: a legacy file is there and holds at
/// least one note.
pub open spec fn migration_due(
    legacy_present: bool,
    legacy_notes: Map<Seq<char>, NoteView>,
) -> bool {
    legacy_present && legacy_notes != Map::<Seq<char>, NoteView>::empty()
}

/// An entry of a directory, as far as its size is concerned.
#[derive(Debug, Clone, Copy, PartialEq, Eq, Structural)]
pub struct DirEntry {
    /// Whether the entry is a regular file.
    pub is_file: bool,
    /// The entry's length in bytes.
    pub size: u64,
}

/// The sum of the sizes of the regular files among `entries`.
pub open spec fn total_file_size(entries: Seq<DirEntry>) -> nat
    decreases entries.len(),
{
    if entries.len() == 0 {
        0
    } else {
        total_file_size(entries.drop_last()) + if entries.last().is_file {
            entries.last().size as nat
        } else {
            0
        }
    }
}

/// The layout of the note store below one base directory.
pub struct StorageManager {
    data_dir: String,
}

impl StorageManager {
    /// The base directory.
    pub closed spec fn base(&self) -> Seq<char> {
        self.data_dir@
    }

    /// A store below `data_dir`.
    pub fn new(data_dir: String) -> (r: Self)
        ensures
            r.base() == data_dir@,
    {
        StorageManager { data_dir }
    }

    /// The base directory.
    pub fn data_dir(&self) -> (r: &str)
        ensures
            r@ == self.base(),
    {
        self.data_dir.as_str()
    }

    fn base_file(&self, name: &str) -> (r: Vec<String>)
        ensures
            texts(r@) == base_file_path(self.base(), name@),
    {
        let mut path: Vec<String> = Vec::new();
        path.push(self.data_dir.clone());
        path.push(name.to_owned());
        assert(texts(path@) =~= base_file_path(self.base(), name@));
        path
    }

    fn user_file(&self, user_id: &str, name: &str) -> (r: Vec<String>)
        ensures
            texts(r@) == user_file_path(self.base(), user_id@, name@),
    {
        let mut path = self.user_dir(user_id);
        let ghost before = texts(path@);
        path.push(name.to_owned());
        assert(texts(path@) =~= before.push(name@));
        assert(texts(path@) =~= user_file_path(self.base(), user_id@, name@));
        path
    }

    /// The path of the directory that holds everything of one user.
    pub fn user_dir(&self, user_id: &str) -> (r: Vec<String>)
        ensures
            texts(r@) == user_dir_path(self.base(), user_id@),
    {
        let mut path: Vec<String> = Vec::new();
        path.push(self.data_dir.clone());
        path.push("users".to_owned());
        path.push(user_id.to_owned());
        assert(texts(path@) =~= user_dir_path(self.base(), user_id@));
        path
    }

    /// The path of a user's encrypted notes.
    pub fn user_notes_file(&self, user_id: &str) -> (r: Vec<String>)
        ensures
            texts(r@) == user_file_path(self.base(), user_id@, notes_file_name()),
    {
        self.user_file(user_id, "notes.enc")
    }

    /// The path of a user's password verifier.
    pub fn verifier_file(&self, user_id: &str) -> (r: Vec<String>)
        ensures
            texts(r@) == user_file_path(self.base(), user_id@, verifier_file_name()),
    {
        self.user_file(user_id, "auth.hash")
    }

    /// The path of a user's security metadata.
    pub fn metadata_file(&self, user_id: &str) -> (r: Vec<String>)
        ensures
            texts(r@) == user_file_path(self.base(), user_id@, metadata_file_name()),
    {
        self.user_file(user_id, "security.meta")
    }

    /// The path of the notes file of the legacy layout.
    pub fn legacy_notes_file(&self) -> (r: Vec<String>)
        ensures
            texts(r@) == base_file_path(self.base(), notes_file_name()),
    {
        self.base_file("notes.enc")
    }

    /// The path that the legacy notes file is renamed to.
    pub fn legacy_backup_file(&self) -> (r: Vec<String>)
        ensures
            texts(r@) == base_file_path(self.base(), backup_file_name()),
    {
        self.base_file("notes.enc.backup")
    }

    /// What [`StorageManager::save_user_notes`] comes to: for some nonce, the
    /// blob that the session makes of the serialized notes under it, to be
    /// written to the user's notes file, or the session's failure. A blob that
    /// is returned loads back to the serialized notes under the same session.
    pub open spec fn saved(
        self,
        crypto: CryptoManager,
        user_id: Seq<char>,
        serialized: Seq<u8>,
        res: Result<WriteRequest, StorageError>,
    ) -> bool {
        &&& exists|nonce: Seq<u8>|
            nonce.len() == NONCE_LEN && match #[trigger] crypto.encrypt_spec(nonce, serialized) {
                Ok(blob) => res matches Ok(request) && request.contents@ == blob,
                Err(failure) => res matches Err(e) && e@ == StorageFailure::Crypto(failure),
            }
        &&& res matches Ok(request) ==> {
            &&& texts(request.path@) == user_file_path(self.base(), user_id, notes_file_name())
            &&& request.contents@.len() == NONCE_LEN + serialized.len() + TAG_LEN
            &&& load_spec(crypto, Some(request.contents@)) == Ok::<Loaded, StorageFailure>(
                Loaded::Serialized(serialized),
            )
        }
    }

    /// What [`StorageManager::migrate_legacy_notes`] comes to: nothing where
    /// no legacy file exists or it holds no notes; the failure where the legacy
    /// file could not be loaded; else the user's notes file as a save makes it,
    /// together with the renaming of the legacy file to its backup name, or the
    /// failure of that save.
    pub open spec fn migration_planned(
        self,
        crypto: CryptoManager,
        user_id: Seq<char>,
        legacy: LegacyLoad,
        serialized: Seq<u8>,
        res: Result<MigrationPlan, StorageError>,
    ) -> bool {
        match legacy {
            LegacyLoad::Absent => res matches Ok(MigrationPlan::Nothing),
            LegacyLoad::Failed(failure) => res matches Err(e) && e@ == failure@,
            LegacyLoad::Notes(notes) => if migration_due(true, notes@) {
                match res {
                    Ok(MigrationPlan::Nothing) => false,
                    Ok(MigrationPlan::Migrate { write, rename_from, rename_to }) => {
                        &&& self.saved(crypto, user_id, serialized, Ok(write))
                        &&& texts(rename_from@) == base_file_path(self.base(), notes_file_name())
                        &&& texts(rename_to@) == base_file_path(self.base(), backup_file_name())
                    },
                    Err(e) => self.saved(crypto, user_id, serialized, Err(e)),
                }
            } else {
                res matches Ok(MigrationPlan::Nothing)
            },
        }
    }

    /// Encrypts a user's serialized notes for their file. The file is always
    /// written in full.
    ///
    /// The contents are the nonce and the ciphertext that
    /// [`CryptoManager::encrypt`] gives, so they load back to `serialized`
    /// under the same session.
    pub fn save_user_notes(
        &self,
        user_id: &str,
        serialized: &[u8],
        crypto: &CryptoManager,
    ) -> (res: Result<WriteRequest, StorageError>)
        ensures
            self.saved(*crypto, user_id@, serialized@, res),
    {
        match crypto.encrypt(serialized) {
            Err(e) => Err(StorageError::Crypto(e)),
            Ok(contents) => Ok(WriteRequest { path: self.user_notes_file(user_id), contents }),
        }
    }

    /// Loads a user's notes from what the caller read of their file: `None`
    /// where no file exists, which is the state of a new account and gives the
    /// empty collection, under any session.
    pub fn load_user_notes(&self, stored: Option<&[u8]>, crypto: &CryptoManager) -> (res: Result<
        LoadedNotes,
        StorageError,
    >)
        ensures
            loaded_result(res) == load_spec(*crypto, slice_view(stored)),
            stored is None ==> (res matches Ok(loaded) && loaded@ == Loaded::Empty),
    {
        match stored {
            None => Ok(LoadedNotes::Empty),
            Some(blob) => match crypto.decrypt(blob) {
                Ok(plaintext) => Ok(LoadedNotes::Serialized(plaintext)),
                Err(e) => Err(StorageError::Crypto(e)),
            },
        }
    }

    /// Loads the notes of the legacy layout from what the caller read of the
    /// legacy file.
    pub fn load_notes(&self, stored: Option<&[u8]>, crypto: &CryptoManager) -> (res: Result<
        LoadedNotes,
        StorageError,
    >)
        ensures
            loaded_result(res) == load_spec(*crypto, slice_view(stored)),
    {
        self.load_user_notes(stored, crypto)
    }

    /// Plans the move of legacy notes to a user.
    ///
    /// `legacy` is what loading the legacy file came to and `serialized` the
    /// collection it holds in serialized form. Where the file could not be
    /// loaded, the migration stops with that failure. Where it exists and holds
    /// notes, the notes are saved for the user as
    /// [`StorageManager::save_user_notes`] does and the legacy file is renamed,
    /// not deleted. Otherwise there is nothing to do, so that a second migration
    /// after a first finds the legacy file gone and does nothing.
    pub fn migrate_legacy_notes(
        &self,
        user_id: &str,
        legacy: LegacyLoad,
        serialized: &[u8],
        crypto: &CryptoManager,
    ) -> (res: Result<MigrationPlan, StorageError>)
        ensures
            self.migration_planned(*crypto, user_id@, legacy, serialized@, res),
    {
        let notes = match legacy {
            LegacyLoad::Absent => {
                return Ok(MigrationPlan::Nothing);
            },
            LegacyLoad::Failed(e) => {
                return Err(e);
            },
            LegacyLoad::Notes(notes) => notes,
        };
        if notes.is_empty() {
            return Ok(MigrationPlan::Nothing);
        }
        match self.save_user_notes(user_id, serialized, crypto) {
            Err(e) => Err(e),
            Ok(write) => Ok(
                MigrationPlan::Migrate {
                    write,
                    rename_from: self.legacy_notes_file(),
                    rename_to: self.legacy_backup_file(),
                },
            ),
        }
    }

    /// The steps that store what an initialization made for a user, in the
    /// order in which the caller takes them.
    pub fn credential_steps(&self, user_id: &str, outcome: InitializationOutcome) -> (r: Vec<
        StorageStep,
    >)
        ensures
            step_views(r@) == credential_step_list(self.base(), user_id@, outcome),
    {
        let mut steps: Vec<StorageStep> = Vec::new();
        let InitializationOutcome { verifier_to_store, metadata_to_store } = outcome;
        match verifier_to_store {
            Some(verifier) => {
                steps.push(
                    StorageStep::Write(
                        WriteRequest {
                            path: self.verifier_file(user_id),
                            contents: verifier.as_str().as_bytes_vec(),
                        },
                    ),
                );
            },
            None => {},
        }
        match metadata_to_store {
            Some(metadata) => {
                steps.push(
                    StorageStep::WriteMetadata { path: self.metadata_file(user_id), metadata },
                );
            },
            None => {},
        }
        assert(step_views(steps@) =~= credential_step_list(self.base(), user_id@, outcome));
        steps
    }

    /// The steps that store a change of password, in the order in which the
    /// caller takes them.
    pub fn password_change_steps(&self, user_id: &str, change: PasswordChange) -> (r: Vec<
        StorageStep,
    >)
        ensures
            step_views(r@) == password_change_step_list(self.base(), user_id@, change),
    {
        let PasswordChange { verifier_to_store, initialization } = change;
        let mut steps: Vec<StorageStep> = Vec::new();
        steps.push(
            StorageStep::Write(
                WriteRequest {
                    path: self.verifier_file(user_id),
                    contents: verifier_to_store.as_str().as_bytes_vec(),
                },
            ),
        );
        match initialization {
            Ok(outcome) => {
                let mut more = self.credential_steps(user_id, outcome);
                steps.append(&mut more);
            },
            Err(_) => {},
        }
        assert(step_views(steps@) =~= password_change_step_list(self.base(), user_id@, change));
        steps
    }

    /// The directory to remove with all it holds when a user's data is
    /// deleted; `None`, and nothing to do, where the directory does not exist.
    pub fn delete_user_data(&self, user_id: &str, present: bool) -> (r: Option<Vec<String>>)
        ensures
            match r {
                Some(path) => present && texts(path@) == user_dir_path(self.base(), user_id@),
                None => !present,
            },
    {
        if present {
            Some(self.user_dir(user_id))
        } else {
            None
        }
    }

    /// The size of a user's data: the sum of the sizes of the regular files
    /// in the user's directory, 0 where the directory does not exist
    /// (`entries` is `None`). A sum beyond `u64::MAX` is given as `u64::MAX`.
    pub fn get_user_data_size(&self, entries: Option<&Vec<DirEntry>>) -> (r: u64)
        ensures
            match entries {
                None => r == 0,
                Some(list) => r == if total_file_size(list@) <= u64::MAX {
                    total_file_size(list@)
                } else {
                    u64::MAX as nat
                },
            },
    {
        let list = match entries {
            None => {
                return 0;
            },
            Some(list) => list,
        };
        let mut total: u64 = 0;
        let mut i: usize = 0;
        while i < list.len()
            invariant
                i <= list.len(),
                total == if total_file_size(list@.take(i as int)) <= u64::MAX {
                    total_file_size(list@.take(i as int))
                } else {
                    u64::MAX as nat
                },
            decreases list.len() - i,
        {
            assert(list@.take(i + 1).drop_last() =~= list@.take(i as int));
            if list[i].is_file {
                total = total.saturating_add(list[i].size);
            }
            i += 1;
        }
        assert(list@.take(list.len() as int) =~= list@);
        total
    }
}

/// The store as far as migration is concerned: the notes that each file
/// holds, where the file exists.
pub struct StoreModel {
    /// The notes in the legacy file.
    pub legacy: Option<Map<Seq<char>, NoteView>>,
    /// The notes in the renamed legacy file.
    pub backup: Option<Map<Seq<char>, NoteView>>,
    /// The notes in each user's file.
    pub users: Map<Seq<char>, Map<Seq<char>, NoteView>>,
}

/// The notes that the legacy file holds; none where it does not exist.
pub open spec fn legacy_notes_of(store: StoreModel) -> Map<Seq<char>, NoteView> {
    match store.legacy {
        Some(notes) => notes,
        None => Map::empty(),
    }
}

/// The store after a migration to `user` that met no failure: where a
/// migration is due, the user's file holds the legacy notes and the legacy file
/// has become the backup; otherwise nothing has changed.
pub open spec fn migrated(store: StoreModel, user: Seq<char>) -> StoreModel {
    if migration_due(store.legacy is Some, legacy_notes_of(store)) {
        StoreModel {
            legacy: None,
            backup: store.legacy,
            users: store.users.insert(user, legacy_notes_of(store)),
        }
    } else {
        store
    }
}

/// Migrating twice in a row leaves the store as migrating once does: after
/// the first migration either the legacy file is gone or it holds no notes, and
/// in both cases no migration is due.
pub proof fn lemma_migration_idempotent(store: StoreModel, user: Seq<char>)
    ensures
        !migration_due(migrated(store, user).legacy is Some, legacy_notes_of(migrated(store, user))),
        migrated(migrated(store, user), user) == migrated(store, user),
{
}

} // verus!
