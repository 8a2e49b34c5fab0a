//! The state of a running session around the three components: who is
//! logged in, with which session, over which notes; and the one attempt at
//! authentication that may be under way.

use crate::auth::{AuthError, AuthFailure, AuthMode, AuthRequest, AuthResult};
use crate::collection::NoteCollection;
use crate::crypto::{CryptoManager, PasswordChange, StoredCredentials};
use crate::errors::{AccountError, CryptoError, StorageError};
use crate::fingerprint::HardwareEnvironment;
use crate::note::{Note, NoteView};
use crate::primitives::{char_is_alphanumeric, fresh_id, is_alphanumeric, text_view};
use crate::storage::{
    load_spec, loaded_result, password_change_step_list, slice_view, step_views, user_dir_path,
    LegacyLoad, LoadedNotes, MigrationPlan, Step, StorageManager, StorageStep, WriteRequest,
};
use crate::text::{
    is_blank, is_blank_text, repeat_string, repeat_text, same_text, texts, to_chars, trim_text,
    trimmed,
};
use crate::time::Timestamp;
use crate::user::{User, UserManager, UserView};
use vstd::prelude::*;

verus! {

/// How a note's time of modification is shown.
#[derive(Debug, Clone, Copy, PartialEq, Eq, Structural)]
pub enum TimeFormat {
    /// As a distance from now, such as "2 hours ago".
    Relative,
    /// As a date and time, such as "15.12.2024 14:30".
    Absolute,
}

/// The time between automatic saves, in milliseconds.
pub const AUTO_SAVE_DELAY_MS: u64 = 2000;

/// What a look at the worker's channel found.
pub enum AuthPoll {
    /// No result yet.
    Empty,
    /// The worker is gone without a result.
    Disconnected,
    /// The worker's result.
    Finished(AuthResult),
}

/// What became of a look at the worker's channel.
#[derive(Debug, Clone, Copy, PartialEq, Eq, Structural)]
pub enum AuthStatus {
    /// No attempt is pending; whatever was found is ignored.
    Idle,
    /// The attempt is still pending.
    Pending,
    /// The attempt failed; the error is kept for display.
    Failed,
    /// The user is logged in. The caller now loads the notes, migrates
    /// legacy notes and runs the security audit.
    Authenticated,
}

/// The pending flag after a request to start an attempt, and whether the
/// request is accepted: an attempt starts only where none is pending.
pub open spec fn request_window(pending: bool) -> (bool, bool) {
    (true, !pending)
}

/// The pending flag after a look at the channel found a result or a
/// disconnection, and whether that is accepted: only a pending attempt takes a
/// result, and with it the attempt is over.
pub open spec fn delivery_window(pending: bool) -> (bool, bool) {
    (false, pending)
}

/// What may happen to the window of an attempt.
pub enum WindowEvent {
    /// An attempt is asked for.
    Request,
    /// A look at the channel finds nothing yet.
    Waiting,
    /// A look at the channel finds a result or a disconnection.
    Delivery,
    /// The user gives up waiting.
    Cancel,
}

/// The pending flag after an event.
pub open spec fn window_after(pending: bool, event: WindowEvent) -> bool {
    match event {
        WindowEvent::Request => request_window(pending).0,
        WindowEvent::Waiting => pending,
        WindowEvent::Delivery => delivery_window(pending).0,
        WindowEvent::Cancel => false,
    }
}

/// The pending flag after a run of events.
pub open spec fn window_after_all(pending: bool, events: Seq<WindowEvent>) -> bool
    decreases events.len(),
{
    if events.len() == 0 {
        pending
    } else {
        window_after(window_after_all(pending, events.drop_last()), events.last())
    }
}

/// The number of requests that a run of events sees accepted.
pub open spec fn requests_accepted(pending: bool, events: Seq<WindowEvent>) -> nat
    decreases events.len(),
{
    if events.len() == 0 {
        0
    } else {
        let before = window_after_all(pending, events.drop_last());
        requests_accepted(pending, events.drop_last()) + if events.last() is Request
            && request_window(before).1 {
            1nat
        } else {
            0nat
        }
    }
}

/// The number of results that a run of events sees taken.
pub open spec fn results_taken(pending: bool, events: Seq<WindowEvent>) -> nat
    decreases events.len(),
{
    if events.len() == 0 {
        0
    } else {
        let before = window_after_all(pending, events.drop_last());
        results_taken(pending, events.drop_last()) + if events.last() is Delivery
            && delivery_window(before).1 {
            1nat
        } else {
            0nat
        }
    }
}

/// At most one attempt is in flight, and one window takes one result: a
/// second request while the first is pending is turned down and leaves the
/// window as it is, and after a result is taken no second one is taken until a
/// new request is accepted.
pub proof fn lemma_single_attempt(pending: bool)
    ensures
        request_window(request_window(pending).0) == (true, false),
        delivery_window(delivery_window(pending).0) == (false, false),
        delivery_window(request_window(pending).0) == (false, true),
{
}

/// Whatever the order of requests, looks at the channel and cancellations, no
/// more results are taken than requests were accepted, and a result can still
/// be taken only while the window is open: starting with no attempt pending,
/// the requests accepted are the results taken, the attempts cancelled or
/// never answered, and the one attempt that may be pending.
pub proof fn lemma_one_result_per_request(events: Seq<WindowEvent>)
    ensures
        results_taken(false, events) <= requests_accepted(false, events),
        window_after_all(false, events) ==> results_taken(false, events) < requests_accepted(
            false,
            events,
        ),
    decreases events.len(),
{
    if events.len() > 0 {
        lemma_one_result_per_request(events.drop_last());
    }
}

/// The title that a new note gets for the title that was typed.
pub open spec fn note_title(typed: Seq<char>) -> Seq<char> {
    if is_blank_text(typed) {
        "Untitled Note"@
    } else {
        typed
    }
}

/// Whether a character of a title is kept in a file name.
pub open spec fn is_file_name_char(c: char) -> bool {
    char_is_alphanumeric(c) || c == ' ' || c == '-' || c == '_'
}

/// A title with every character that is not kept replaced by `_`.
pub open spec fn safe_chars(title: Seq<char>) -> Seq<char> {
    title.map_values(
        |c: char|
            if is_file_name_char(c) {
                c
            } else {
                '_'
            },
    )
}

/// The file name that an export of a note proposes.
pub open spec fn export_name(title: Seq<char>) -> Seq<char> {
    if trimmed(safe_chars(title)).len() == 0 {
        "Untitled_Note.txt"@
    } else {
        trimmed(safe_chars(title)) + ".txt"@
    }
}

/// The text of an exported note: title, times, id, a line of fifty `=`, an
/// empty line and the content.
pub open spec fn export_text(note: NoteView) -> Seq<char> {
    "Title: "@ + note.title + "\nCreated: "@ + note.created_at.local_text() + "\nModified: "@
        + note.modified_at.local_text() + "\nID: "@ + note.id + "\n"@ + repeat_text("="@, 50)
        + "\n\n"@ + note.content
}

/// A file that the user may save: a proposed name and the text.
#[derive(Debug)]
pub struct ExportRequest {
    /// The proposed file name.
    pub file_name: String,
    /// The text of the file. It is not encrypted.
    pub contents: String,
}

/// Proposes a file name for the export of a note with this title.
pub fn export_file_name(title: &str) -> (r: String)
    ensures
        r@ == export_name(title@),
{
    proof {
        reveal_strlit("_");
    }
    let chars = to_chars(title);
    let mut safe = String::new();
    let mut i: usize = 0;
    assert(safe@ =~= safe_chars(title@).take(0));
    while i < chars.len()
        invariant
            i <= chars.len(),
            chars@ == title@,
            "_"@ == seq!['_'],
            safe@ == safe_chars(title@).take(i as int),
        decreases chars.len() - i,
    {
        let c = chars[i];
        if is_alphanumeric(c) || c == ' ' || c == '-' || c == '_' {
            safe.append(title.substring_char(i, i + 1));
            assert(title@.subrange(i as int, i + 1) =~= seq![c]);
        } else {
            safe.append("_");
        }
        assert(safe@ =~= safe_chars(title@).take(i + 1));
        i += 1;
    }
    assert(safe_chars(title@).take(chars.len() as int) =~= safe_chars(title@));
    let safe_title = trim_text(safe.as_str());
    if safe_title.as_str().unicode_len() == 0 {
        "Untitled_Note.txt".to_owned()
    } else {
        let mut name = safe_title;
        name.append(".txt");
        name
    }
}

/// Writes a note out as text.
pub fn write_note_text(note: &Note) -> (r: String)
    ensures
        r@ == export_text(note@),
{
    let mut text = "Title: ".to_owned();
    text.append(note.title());
    text.append("\nCreated: ");
    text.append(note.format_created_time().as_str());
    text.append("\nModified: ");
    text.append(note.format_modified_time().as_str());
    text.append("\nID: ");
    text.append(note.id());
    text.append("\n");
    text.append(repeat_string("=", 50).as_str());
    text.append("\n\n");
    text.append(note.content());
    text
}

/// What the caller must remove and write when an account is deleted. The
/// order is that of [`AccountDeletion::steps`]: the note data, then the crypto
/// data, then the account record. With this order a crash in between never
/// leaves an account that can log in to data whose key material is gone.
#[derive(Debug)]
pub struct AccountDeletion {
    /// The id of the user whose account is deleted.
    pub user_id: String,
    /// The directory of the user's note data, for
    /// [`StorageManager::delete_user_data`].
    pub note_data: Vec<String>,
    /// The directory of the user's verifier and metadata, for
    /// [`crate::crypto::CryptoManager::delete_user_crypto_data`]; `None` where
    /// no session was there to delete them.
    pub crypto_data: Option<Vec<String>>,
    /// Whether the registry lost the account and must be saved.
    pub registry_changed: bool,
}

impl AccountDeletion {
    /// The steps of the deletion: the note data goes first, then the crypto
    /// data, and the registry is saved last.
    pub open spec fn step_list(self) -> Seq<Step> {
        seq![Step::RemoveTree(texts(self.note_data@))] + (match self.crypto_data {
            Some(path) => seq![Step::RemoveTree(texts(path@))],
            None => Seq::empty(),
        }) + (if self.registry_changed {
            seq![Step::SaveRegistry]
        } else {
            Seq::empty()
        })
    }

    /// The steps of the deletion, in the order in which the caller takes them.
    pub fn steps(self) -> (r: Vec<StorageStep>)
        ensures
            step_views(r@) == self.step_list(),
    {
        let AccountDeletion { user_id: _, note_data, crypto_data, registry_changed } = self;
        let mut steps: Vec<StorageStep> = Vec::new();
        steps.push(StorageStep::RemoveTree(note_data));
        match crypto_data {
            Some(path) => {
                steps.push(StorageStep::RemoveTree(path));
            },
            None => {},
        }
        if registry_changed {
            steps.push(StorageStep::SaveRegistry);
        }
        assert(step_views(steps@) =~= self.step_list());
        steps
    }
}

/// What a change of password came to, and what the caller must store.
#[derive(Debug)]
pub struct PasswordChangePlan {
    /// What the change came to in the crypto session.
    pub change: PasswordChange,
    /// The notes under the new key, where the session has one: the file to
    /// write, or the failure to encrypt. What was stored under the old key
    /// cannot be read with the new one.
    pub notes: Option<Result<WriteRequest, StorageError>>,
    /// Whether the registry took the new password and must be saved.
    pub registry_changed: bool,
}

impl PasswordChangePlan {
    /// The steps of the change: the new verifier, then what the
    /// initialization made, then the notes under the new key, then the
    /// registry.
    pub open spec fn step_list(self, base: Seq<char>, user_id: Seq<char>) -> Seq<Step> {
        password_change_step_list(base, user_id, self.change) + (match self.notes {
            Some(Ok(request)) => seq![
                Step::Write { path: texts(request.path@), contents: request.contents@ },
            ],
            _ => Seq::empty(),
        }) + (if self.registry_changed {
            seq![Step::SaveRegistry]
        } else {
            Seq::empty()
        })
    }

    /// The steps of the change for the user in the given store, in the order
    /// in which the caller takes them.
    pub fn steps(self, store: &StorageManager, user_id: &str) -> (r: Vec<StorageStep>)
        ensures
            step_views(r@) == self.step_list(store.base(), user_id@),
    {
        let PasswordChangePlan { change, notes, registry_changed } = self;
        let mut steps = store.password_change_steps(user_id, change);
        match notes {
            Some(Ok(request)) => {
                steps.push(StorageStep::Write(request));
            },
            _ => {},
        }
        if registry_changed {
            steps.push(StorageStep::SaveRegistry);
        }
        assert(step_views(steps@) =~= self.step_list(store.base(), user_id@));
        steps
    }
}

/// The state of a running session.
pub struct NotesApp {
    /// The notes of the user who is logged in.
    pub notes: NoteCollection,
    /// The id of the note that is selected.
    pub selected_note_id: Option<String>,
    /// The crypto session of the user who is logged in.
    pub crypto_manager: Option<CryptoManager>,
    /// The note store.
    pub storage_manager: StorageManager,
    /// The account registry, where it could be loaded.
    pub user_manager: Option<UserManager>,
    /// The user who is logged in.
    pub current_user: Option<User>,
    /// Whether a user is logged in.
    pub is_authenticated: bool,
    /// Whether the login dialog is shown.
    pub show_auth_dialog: bool,
    /// Whether the dialog logs in or registers.
    pub auth_mode: AuthMode,
    /// The message of the last failed attempt.
    pub authentication_error: Option<String>,
    /// Whether an attempt is pending.
    pub is_authenticating: bool,
    /// The time between automatic saves, in milliseconds.
    pub auto_save_delay_ms: u64,
    /// The warnings of the last security audit.
    pub security_warnings: Vec<String>,
    /// How times are shown.
    pub show_time_format: TimeFormat,
}

/// The view of an optional registry.
pub open spec fn registry_view(registry: Option<UserManager>) -> Option<Seq<UserView>> {
    match registry {
        Some(r) => Some(r@),
        None => None,
    }
}

impl NotesApp {
    /// The state before anybody has logged in.
    pub fn new(storage_manager: StorageManager, user_manager: Option<UserManager>) -> (r: Self)
        ensures
            r.notes@ == Map::<Seq<char>, NoteView>::empty(),
            r.selected_note_id is None,
            r.crypto_manager is None,
            r.storage_manager == storage_manager,
            r.user_manager == user_manager,
            r.current_user is None,
            !r.is_authenticated,
            r.show_auth_dialog,
            r.auth_mode == AuthMode::Login,
            r.authentication_error is None,
            !r.is_authenticating,
            r.auto_save_delay_ms == AUTO_SAVE_DELAY_MS,
            r.security_warnings@.len() == 0,
            r.show_time_format == TimeFormat::Relative,
    {
        NotesApp {
            notes: NoteCollection::new(),
            selected_note_id: None,
            crypto_manager: None,
            storage_manager,
            user_manager,
            current_user: None,
            is_authenticated: false,
            show_auth_dialog: true,
            auth_mode: AuthMode::Login,
            authentication_error: None,
            is_authenticating: false,
            auto_save_delay_ms: AUTO_SAVE_DELAY_MS,
            security_warnings: Vec::new(),
            show_time_format: TimeFormat::Relative,
        }
    }

    /// Whether only the fields of the attempt differ between two states.
    pub open spec fn same_session(self, other: NotesApp) -> bool {
        &&& self.notes == other.notes
        &&& self.selected_note_id == other.selected_note_id
        &&& self.crypto_manager == other.crypto_manager
        &&& self.storage_manager == other.storage_manager
        &&& self.user_manager == other.user_manager
        &&& self.current_user == other.current_user
        &&& self.is_authenticated == other.is_authenticated
        &&& self.show_auth_dialog == other.show_auth_dialog
        &&& self.auth_mode == other.auth_mode
        &&& self.auto_save_delay_ms == other.auto_save_delay_ms
        &&& self.security_warnings == other.security_warnings
        &&& self.show_time_format == other.show_time_format
    }

    /// Asks for an attempt at authentication.
    ///
    /// While an attempt is pending, the request is turned down and nothing
    /// changes. Otherwise the attempt is now pending, the last error is
    /// cleared, and the request for the worker is returned with a copy of the
    /// registry.
    pub fn start_authentication(
        &mut self,
        username: String,
        password: String,
        is_registration: bool,
    ) -> (r: Option<AuthRequest>)
        ensures
            final(self).is_authenticating == request_window(old(self).is_authenticating).0,
            r is Some == request_window(old(self).is_authenticating).1,
            old(self).is_authenticating ==> *final(self) == *old(self),
            !old(self).is_authenticating ==> {
                &&& final(self).same_session(*old(self))
                &&& final(self).authentication_error is None
                &&& r matches Some(request)
                &&& request.username == username
                &&& request.password == password
                &&& request.is_registration == is_registration
                &&& registry_view(request.user_manager) == registry_view(old(self).user_manager)
            },
    {
        if self.is_authenticating {
            return None;
        }
        self.is_authenticating = true;
        self.authentication_error = None;
        let user_manager = match &self.user_manager {
            Some(registry) => Some(registry.clone()),
            None => None,
        };
        Some(AuthRequest { username, password, is_registration, user_manager })
    }

    /// Gives up waiting for the pending attempt. Its result, when it comes,
    /// finds no attempt pending and is ignored.
    pub fn cancel_authentication(&mut self)
        ensures
            final(self).is_authenticating == window_after(
                old(self).is_authenticating,
                WindowEvent::Cancel,
            ),
            final(self).same_session(*old(self)),
            final(self).authentication_error == old(self).authentication_error,
    {
        self.is_authenticating = false;
    }

    /// Takes what a look at the worker's channel found.
    ///
    /// Where no attempt is pending, nothing changes, whatever was found. An
    /// empty channel leaves the attempt pending. A result or a disconnection
    /// ends the attempt: a success logs the user in, anything else leaves the
    /// message for display.
    pub fn check_authentication_result(&mut self, poll: AuthPoll) -> (r: AuthStatus)
        ensures
            !old(self).is_authenticating ==> r == AuthStatus::Idle && *final(self) == *old(self),
            old(self).is_authenticating ==> match poll {
                AuthPoll::Empty => r == AuthStatus::Pending && *final(self) == *old(self),
                AuthPoll::Disconnected => {
                    &&& r == AuthStatus::Failed
                    &&& final(self).is_authenticating == delivery_window(true).0
                    &&& final(self).same_session(*old(self))
                    &&& final(self).authentication_error matches Some(m)
                    &&& m@ == AuthFailure::ProcessFailed.message_text()
                },
                AuthPoll::Finished(AuthResult::Error(e)) => {
                    &&& r == AuthStatus::Failed
                    &&& final(self).is_authenticating == delivery_window(true).0
                    &&& final(self).same_session(*old(self))
                    &&& final(self).authentication_error matches Some(m)
                    &&& m@ == e@.message_text()
                },
                AuthPoll::Finished(AuthResult::Success(session, user)) => {
                    &&& r == AuthStatus::Authenticated
                    &&& final(self).is_authenticating == delivery_window(true).0
                    &&& final(self).crypto_manager == Some(session)
                    &&& final(self).current_user == Some(user)
                    &&& final(self).is_authenticated
                    &&& !final(self).show_auth_dialog
                    &&& final(self).notes == old(self).notes
                    &&& final(self).selected_note_id == old(self).selected_note_id
                    &&& final(self).storage_manager == old(self).storage_manager
                    &&& final(self).user_manager == old(self).user_manager
                    &&& final(self).auth_mode == old(self).auth_mode
                    &&& final(self).authentication_error == old(self).authentication_error
                    &&& final(self).auto_save_delay_ms == old(self).auto_save_delay_ms
                    &&& final(self).security_warnings == old(self).security_warnings
                    &&& final(self).show_time_format == old(self).show_time_format
                },
            },
    {
        if !self.is_authenticating {
            return AuthStatus::Idle;
        }
        match poll {
            AuthPoll::Empty => AuthStatus::Pending,
            AuthPoll::Disconnected => {
                self.authentication_error = Some(AuthError::ProcessFailed.message());
                self.is_authenticating = false;
                AuthStatus::Failed
            },
            AuthPoll::Finished(AuthResult::Error(e)) => {
                self.authentication_error = Some(e.message());
                self.is_authenticating = false;
                AuthStatus::Failed
            },
            AuthPoll::Finished(AuthResult::Success(session, user)) => {
                self.crypto_manager = Some(session);
                self.current_user = Some(user);
                self.is_authenticated = true;
                self.show_auth_dialog = false;
                self.is_authenticating = false;
                AuthStatus::Authenticated
            },
        }
    }

    /// Loads the notes of the user who is logged in from what the caller read
    /// of their file; `None` where nobody is logged in.
    pub fn load_notes(&self, stored: Option<&[u8]>) -> (r: Option<Result<LoadedNotes, StorageError>>)
        ensures
            match (self.crypto_manager, self.current_user) {
                (Some(session), Some(_)) => r matches Some(res) && loaded_result(res) == load_spec(
                    session,
                    slice_view(stored),
                ),
                _ => r is None,
            },
    {
        match (&self.crypto_manager, &self.current_user) {
            (Some(session), Some(_)) => Some(self.storage_manager.load_user_notes(stored, session)),
            _ => None,
        }
    }

    /// Encrypts the serialized notes of the user who is logged in for their
    /// file, as [`StorageManager::save_user_notes`] does; `None` where nobody
    /// is logged in.
    pub fn save_notes(&self, serialized: &[u8]) -> (r: Option<Result<WriteRequest, StorageError>>)
        ensures
            match (self.crypto_manager, self.current_user) {
                (Some(session), Some(user)) => r matches Some(res) && self.storage_manager.saved(
                    session,
                    user.id@,
                    serialized@,
                    res,
                ),
                _ => r is None,
            },
    {
        match (&self.crypto_manager, &self.current_user) {
            (Some(session), Some(user)) => Some(
                self.storage_manager.save_user_notes(user.id.as_str(), serialized, session),
            ),
            _ => None,
        }
    }

    /// Plans the move of legacy notes to the user who is logged in, as
    /// [`StorageManager::migrate_legacy_notes`] does; `None` where nobody is
    /// logged in.
    pub fn migrate_legacy_data_if_needed(&self, legacy: LegacyLoad, serialized: &[u8]) -> (r:
        Option<Result<MigrationPlan, StorageError>>)
        ensures
            match (self.crypto_manager, self.current_user) {
                (Some(session), Some(user)) => r matches Some(res)
                    && self.storage_manager.migration_planned(
                    session,
                    user.id@,
                    legacy,
                    serialized@,
                    res,
                ),
                _ => r is None,
            },
    {
        match (&self.crypto_manager, &self.current_user) {
            (Some(session), Some(user)) => Some(
                self.storage_manager.migrate_legacy_notes(
                    user.id.as_str(),
                    legacy,
                    serialized,
                    session,
                ),
            ),
            _ => None,
        }
    }

    /// Runs the security audit of the session and keeps its warnings. Without
    /// a session nothing changes.
    pub fn run_security_audit(&mut self, env: &HardwareEnvironment)
        ensures
            match old(self).crypto_manager {
                Some(session) => texts(final(self).security_warnings@)
                    == crate::crypto::audit_warnings(
                    session.session_metadata(),
                    env.fingerprint_hash(),
                    env.sorted_components(),
                ),
                None => final(self).security_warnings == old(self).security_warnings,
            },
            final(self).same_session(
                NotesApp { security_warnings: final(self).security_warnings, ..*old(self) },
            ),
            final(self).is_authenticating == old(self).is_authenticating,
            final(self).authentication_error == old(self).authentication_error,
    {
        match &self.crypto_manager {
            Some(session) => {
                let warnings = session.security_audit(env);
                self.security_warnings = warnings;
            },
            None => {},
        }
    }

    /// Adds a note with the given id, created at `now`, under the title
    /// [`note_title`], and selects it. A note that had the id is replaced.
    pub fn create_note_with(&mut self, id: String, title: String, now: Timestamp)
        ensures
            final(self).notes@ == old(self).notes@.insert(
                id@,
                NoteView {
                    id: id@,
                    title: note_title(title@),
                    content: Seq::<char>::empty(),
                    created_at: now,
                    modified_at: now,
                },
            ),
            final(self).selected_note_id matches Some(selected) && selected@ == id@,
            final(self).same_session(
                NotesApp {
                    notes: final(self).notes,
                    selected_note_id: final(self).selected_note_id,
                    ..*old(self)
                },
            ),
            final(self).is_authenticating == old(self).is_authenticating,
            final(self).authentication_error == old(self).authentication_error,
    {
        let final_title = if is_blank(title.as_str()) {
            "Untitled Note".to_owned()
        } else {
            title
        };
        let selected = id.clone();
        let note = Note::with_id_at(id, final_title, now);
        self.notes.insert(note);
        self.selected_note_id = Some(selected);
    }

    /// Adds a note with a fresh random id, created now, under the title
    /// [`note_title`], and selects it. The caller saves the notes afterwards.
    pub fn create_new_note(&mut self, title: String)
        ensures
            final(self).selected_note_id matches Some(id) && final(self).notes@.contains_key(id@)
                && final(self).notes@ == old(self).notes@.insert(id@, final(self).notes@[id@])
                && final(self).notes@[id@].id == id@ && final(self).notes@[id@].title
                == note_title(title@) && final(self).notes@[id@].content == Seq::<char>::empty()
                && final(self).notes@[id@].modified_at == final(self).notes@[id@].created_at,
            final(self).same_session(
                NotesApp {
                    notes: final(self).notes,
                    selected_note_id: final(self).selected_note_id,
                    ..*old(self)
                },
            ),
            final(self).is_authenticating == old(self).is_authenticating,
            final(self).authentication_error == old(self).authentication_error,
    {
        self.create_note_with(fresh_id(), title, Timestamp::now());
    }

    /// Removes the note with this id and drops the selection where it was
    /// selected. The caller saves the notes afterwards.
    pub fn delete_note(&mut self, note_id: &str)
        ensures
            final(self).notes@ == old(self).notes@.remove(note_id@),
            match old(self).selected_note_id {
                Some(selected) => if selected@ == note_id@ {
                    final(self).selected_note_id is None
                } else {
                    final(self).selected_note_id == old(self).selected_note_id
                },
                None => final(self).selected_note_id is None,
            },
            final(self).same_session(
                NotesApp {
                    notes: final(self).notes,
                    selected_note_id: final(self).selected_note_id,
                    ..*old(self)
                },
            ),
            final(self).is_authenticating == old(self).is_authenticating,
            final(self).authentication_error == old(self).authentication_error,
    {
        let _ = self.notes.remove(note_id);
        let deselect = match &self.selected_note_id {
            Some(selected) => same_text(selected.as_str(), note_id),
            None => false,
        };
        if deselect {
            self.selected_note_id = None;
        }
    }

    /// Whether an automatic save is due `elapsed_ms` milliseconds after the
    /// last save.
    pub fn auto_save_if_needed(&self, elapsed_ms: u64) -> (r: bool)
        ensures
            r == (elapsed_ms >= self.auto_save_delay_ms),
    {
        elapsed_ms >= self.auto_save_delay_ms
    }

    /// The current time by the system clock as `DD.MM.YYYY HH:MM:SS` in
    /// Europe/Zurich.
    pub fn get_current_time(&self) -> (r: String)
        ensures
            exists|now: Timestamp| r@ == #[trigger] now.local_text_with_seconds(),
    {
        let now = Timestamp::now();
        let text = now.format_local_with_seconds();
        assert(text@ == now.local_text_with_seconds());
        text
    }

    /// Logs the user out: session, user, notes, selection, warnings and the
    /// last error go, and the login dialog is shown again.
    pub fn logout(&mut self)
        ensures
            !final(self).is_authenticated,
            final(self).show_auth_dialog,
            final(self).crypto_manager is None,
            final(self).current_user is None,
            final(self).notes@ == Map::<Seq<char>, NoteView>::empty(),
            final(self).selected_note_id is None,
            final(self).authentication_error is None,
            final(self).auth_mode == AuthMode::Login,
            final(self).security_warnings@.len() == 0,
            final(self).storage_manager == old(self).storage_manager,
            final(self).user_manager == old(self).user_manager,
            final(self).is_authenticating == old(self).is_authenticating,
            final(self).auto_save_delay_ms == old(self).auto_save_delay_ms,
            final(self).show_time_format == old(self).show_time_format,
    {
        self.is_authenticated = false;
        self.show_auth_dialog = true;
        self.crypto_manager = None;
        self.current_user = None;
        self.notes.clear();
        self.selected_note_id = None;
        self.authentication_error = None;
        self.auth_mode = AuthMode::Login;
        self.security_warnings = Vec::new();
    }

    /// The export of the note with this id: a proposed file name and the
    /// text; `None` where there is no such note.
    pub fn export_note_to_file(&self, note_id: &str) -> (r: Option<ExportRequest>)
        ensures
            match r {
                Some(request) => self.notes@.contains_key(note_id@) && request.file_name@
                    == export_name(self.notes@[note_id@].title) && request.contents@
                    == export_text(self.notes@[note_id@]),
                None => !self.notes@.contains_key(note_id@),
            },
    {
        match self.notes.get(note_id) {
            None => None,
            Some(note) => Some(
                ExportRequest {
                    file_name: export_file_name(note.title()),
                    contents: write_note_text(note),
                },
            ),
        }
    }

    /// Changes the password of the user who is logged in: first in the crypto
    /// session, as [`CryptoManager::change_password`] does. Where that succeeded
    /// with a session under the new key, the serialized notes are encrypted
    /// under the new key for the user's notes file, as
    /// [`StorageManager::save_user_notes`] does, and the registry takes the new
    /// password too. `None` where nobody is logged in.
    ///
    /// `serialized` is the collection in memory in serialized form. The caller
    /// takes the steps of the plan that comes back.
    pub fn handle_password_change(
        &mut self,
        old_password: &str,
        new_password: &str,
        stored: StoredCredentials,
        env: &HardwareEnvironment,
        now: u64,
        serialized: &[u8],
    ) -> (r: Option<Result<PasswordChangePlan, CryptoError>>)
        ensures
            match (old(self).crypto_manager, old(self).current_user) {
                (Some(session), Some(user)) => {
                    &&& r matches Some(res)
                    &&& final(self).crypto_manager matches Some(after)
                    &&& match res {
                        Err(e) => {
                            &&& session.password_changed(
                                after,
                                Err(e),
                                old_password@,
                                new_password@,
                                user.id@,
                                text_view(stored.verifier),
                                stored.metadata,
                                *env,
                                now,
                            )
                            &&& final(self).user_manager == old(self).user_manager
                        },
                        Ok(plan) => {
                            &&& session.password_changed(
                                after,
                                Ok(plan.change),
                                old_password@,
                                new_password@,
                                user.id@,
                                text_view(stored.verifier),
                                stored.metadata,
                                *env,
                                now,
                            )
                            &&& if plan.change.initialization is Ok {
                                &&& plan.notes matches Some(written)
                                &&& old(self).storage_manager.saved(
                                    after,
                                    user.id@,
                                    serialized@,
                                    written,
                                )
                                &&& match old(self).user_manager {
                                    Some(before) => final(self).user_manager matches Some(
                                        registry,
                                    ) && exists|outcome: Result<(), AccountError>|
                                        {
                                            &&& #[trigger] before.password_changed(
                                                registry,
                                                outcome,
                                                user.username@,
                                                old_password@,
                                                new_password@,
                                            )
                                            &&& plan.registry_changed == (outcome is Ok)
                                        },
                                    None => final(self).user_manager is None
                                        && !plan.registry_changed,
                                }
                            } else {
                                &&& plan.notes is None
                                &&& !plan.registry_changed
                                &&& final(self).user_manager == old(self).user_manager
                            }
                        },
                    }
                },
                _ => r is None && *final(self) == *old(self),
            },
            final(self).same_session(
                NotesApp {
                    crypto_manager: final(self).crypto_manager,
                    user_manager: final(self).user_manager,
                    ..*old(self)
                },
            ),
            final(self).is_authenticating == old(self).is_authenticating,
            final(self).authentication_error == old(self).authentication_error,
    {
        let res = match (&mut self.crypto_manager, &self.current_user) {
            (Some(session), Some(user)) => session.change_password(
                old_password,
                new_password,
                user.id.as_str(),
                stored,
                env,
                now,
            ),
            _ => {
                return None;
            },
        };
        let change = match res {
            Err(e) => {
                return Some(Err(e));
            },
            Ok(change) => change,
        };
        if change.initialization.is_err() {
            return Some(Ok(PasswordChangePlan { change, notes: None, registry_changed: false }));
        }
        let notes = match (&self.crypto_manager, &self.current_user) {
            (Some(session), Some(user)) => Some(
                self.storage_manager.save_user_notes(user.id.as_str(), serialized, session),
            ),
            _ => None,
        };
        let username = match &self.current_user {
            Some(user) => user.username.clone(),
            None => String::new(),
        };
        let ghost before = self.user_manager;
        let registry = self.user_manager.take();
        let registry_changed = match registry {
            Some(mut registry) => {
                let outcome = registry.change_password(username.as_str(), old_password, new_password);
                let changed = outcome.is_ok();
                self.user_manager = Some(registry);
                proof {
                    let earlier = before->0;
                    assert(earlier.password_changed(
                        self.user_manager->0,
                        outcome,
                        old(self).current_user->0.username@,
                        old_password@,
                        new_password@,
                    ));
                }
                changed
            },
            None => false,
        };
        Some(Ok(PasswordChangePlan { change, notes, registry_changed }))
    }

    /// Deletes the account of the user who is logged in: the account leaves
    /// the registry, the user is logged out, and the caller is told what to
    /// remove from storage and in which order. `None` where nobody is logged
    /// in.
    pub fn handle_account_deletion(&mut self) -> (r: Option<AccountDeletion>)
        ensures
            match old(self).current_user {
                None => r is None && *final(self) == *old(self),
                Some(user) => {
                    &&& r matches Some(plan)
                    &&& plan.user_id@ == user.id@
                    &&& texts(plan.note_data@) == user_dir_path(
                        old(self).storage_manager.base(),
                        user.id@,
                    )
                    &&& match old(self).crypto_manager {
                        Some(_) => plan.crypto_data matches Some(path) && texts(path@)
                            == user_dir_path(old(self).storage_manager.base(), user.id@),
                        None => plan.crypto_data is None,
                    }
                    &&& match old(self).user_manager {
                        Some(registry) => final(self).user_manager matches Some(after) && (
                        match crate::user::position_of(registry@, user.username@) {
                            Some(i) => plan.registry_changed && after@ == registry@.remove(i),
                            None => !plan.registry_changed && after@ == registry@,
                        }),
                        None => !plan.registry_changed && final(self).user_manager is None,
                    }
                    &&& !final(self).is_authenticated
                    &&& final(self).show_auth_dialog
                    &&& final(self).crypto_manager is None
                    &&& final(self).current_user is None
                    &&& final(self).notes@ == Map::<Seq<char>, NoteView>::empty()
                    &&& final(self).selected_note_id is None
                    &&& final(self).storage_manager == old(self).storage_manager
                    &&& final(self).is_authenticating == old(self).is_authenticating
                },
            },
    {
        let user = match &self.current_user {
            None => {
                return None;
            },
            Some(user) => user.clone(),
        };
        let note_data = self.storage_manager.user_dir(user.id.as_str());
        let crypto_data = match &self.crypto_manager {
            Some(session) => session.delete_user_crypto_data(
                self.storage_manager.data_dir(),
                user.id.as_str(),
                true,
            ),
            None => None,
        };
        let registry_changed = match &mut self.user_manager {
            Some(registry) => registry.delete_user(user.username.as_str()).is_ok(),
            None => false,
        };
        self.logout();
        Some(AccountDeletion { user_id: user.id, note_data, crypto_data, registry_changed })
    }
}

} // verus!
