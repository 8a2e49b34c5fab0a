//! The crypto session: from a password and the machine's fingerprint to a
//! key, and with the key to sealed blobs and back.

use crate::errors::{CryptoError, CryptoFailure};
use crate::fingerprint::{
    changed_components, component_changes, component_drift, critical_change,
    generate_hardware_salt, generate_stable_hardware_fingerprint, hardware_salt,
    is_critical_hardware_change, push_drift_notes, HardwareEnvironment,
};
use crate::primitives::{
    aead_open, aead_seal, argon2id_key, bytes_view, derive_key, format_utc, fresh_nonce, seal,
    text_view, unseal, utc_text, TAG_LEN,
};
use crate::text::{clone_strings, decimal_string, decimal_text, join_strings, join_texts, texts};
use crate::phc::{make_verifier, test_password, verifier_check};
use vstd::prelude::*;
use vstd::slice::slice_subrange;

verus! {

/// Length in bytes of the nonce that stands before each ciphertext.
pub const NONCE_LEN: usize = 12;

/// Length in bytes of the derived key.
pub const KEY_LEN: usize = 32;

/// Memory cost of key derivation in KiB: 128 MiB.
pub const KDF_MEMORY_KIB: u32 = 131072;

/// Number of passes of key derivation.
pub const KDF_ITERATIONS: u32 = 3;

/// Degree of parallelism of key derivation.
pub const KDF_LANES: u32 = 4;

/// The format tag written into new security metadata.
pub const METADATA_VERSION: u32 = 1;

/// What is stored beside a user's data to tell the machine it was made on.
#[derive(Debug)]
pub struct SecurityMetadata {
    /// Format tag of this record.
    pub version: u32,
    /// Seconds since the Unix epoch at the first initialization.
    pub created_timestamp: u64,
    /// Hash of the joined fingerprint components.
    pub hardware_fingerprint_hash: u64,
    /// The sorted fingerprint components; empty in records of the first format.
    pub hardware_components: Vec<String>,
}

/// A [`SecurityMetadata`] with its components as texts.
pub struct MetadataView {
    pub version: u32,
    pub created_timestamp: u64,
    pub fingerprint_hash: u64,
    pub components: Seq<Seq<char>>,
}

impl View for SecurityMetadata {
    type V = MetadataView;

    open spec fn view(&self) -> MetadataView {
        MetadataView {
            version: self.version,
            created_timestamp: self.created_timestamp,
            fingerprint_hash: self.hardware_fingerprint_hash,
            components: texts(self.hardware_components@),
        }
    }
}

impl Clone for SecurityMetadata {
    fn clone(&self) -> (r: Self)
        ensures
            r@ == self@,
    {
        SecurityMetadata {
            version: self.version,
            created_timestamp: self.created_timestamp,
            hardware_fingerprint_hash: self.hardware_fingerprint_hash,
            hardware_components: clone_strings(&self.hardware_components),
        }
    }
}

/// What the caller found of a user's security metadata.
#[derive(Debug)]
pub enum StoredMetadata {
    /// No record is stored.
    Missing,
    /// A record is stored that cannot be read as metadata.
    Malformed,
    /// The record that is stored.
    Present(SecurityMetadata),
}

impl StoredMetadata {
    /// The record, where one is stored and readable.
    pub open spec fn record(&self) -> Option<MetadataView> {
        match self {
            StoredMetadata::Present(m) => Some(m@),
            _ => None,
        }
    }
}

/// What the caller read of a user's stored credentials. A user counts as set
/// up before where a verifier is stored and a metadata record is stored too,
/// readable or not.
#[derive(Debug)]
pub struct StoredCredentials {
    /// The stored password verifier, a PHC string, where one is stored.
    pub verifier: Option<String>,
    /// The stored security metadata.
    pub metadata: StoredMetadata,
}

/// What the caller must write after an initialization, each with owner-only
/// permissions. The steps and their order are those of
/// `StorageManager::credential_steps`.
#[derive(Debug)]
pub struct InitializationOutcome {
    /// The verifier to store, where a new one was made.
    pub verifier_to_store: Option<String>,
    /// The metadata to store, where it is new or was brought up to date.
    pub metadata_to_store: Option<SecurityMetadata>,
}

/// The view of optional metadata.
pub open spec fn metadata_view(m: Option<SecurityMetadata>) -> Option<MetadataView> {
    match m {
        Some(meta) => Some(meta@),
        None => None,
    }
}

/// How stored metadata stands to the current fingerprint.
#[derive(Debug)]
pub enum FingerprintVerdict {
    /// Nothing to do: the fingerprints agree, or no component that both have
    /// differs.
    Unchanged,
    /// The stored metadata is replaced by this record, which carries the
    /// current fingerprint.
    Refreshed(SecurityMetadata),
    /// A critical component changed; the notes name every changed component.
    Critical(Vec<String>),
}

/// A [`FingerprintVerdict`] over texts.
pub enum Verdict {
    Unchanged,
    Refreshed(MetadataView),
    Critical(Seq<Seq<char>>),
}

impl View for FingerprintVerdict {
    type V = Verdict;

    open spec fn view(&self) -> Verdict {
        match self {
            FingerprintVerdict::Unchanged => Verdict::Unchanged,
            FingerprintVerdict::Refreshed(m) => Verdict::Refreshed(m@),
            FingerprintVerdict::Critical(notes) => Verdict::Critical(texts(notes@)),
        }
    }
}

/// `meta` with the current fingerprint in place of the stored one.
pub open spec fn with_fingerprint(
    meta: MetadataView,
    hash: u64,
    components: Seq<Seq<char>>,
) -> MetadataView {
    MetadataView {
        version: meta.version,
        created_timestamp: meta.created_timestamp,
        fingerprint_hash: hash,
        components: components,
    }
}

/// The verdict on stored metadata against the current fingerprint.
///
/// A record without components is of the first format and is brought up to
/// date without a test. Else equal hashes leave the record alone. Else the
/// change is classified: where the critical components differ it is refused,
/// and any other change replaces the stored fingerprint by the current one. A
/// differing hash never leaves the stored fingerprint in place.
///
/// The notes of a refusal name each position that both fingerprints have and
/// at which they differ; they are empty where one list is a prefix of the
/// other.
pub open spec fn reconcile(meta: MetadataView, hash: u64, components: Seq<Seq<char>>) -> Verdict {
    if meta.components.len() == 0 {
        Verdict::Refreshed(with_fingerprint(meta, hash, components))
    } else if meta.fingerprint_hash == hash {
        Verdict::Unchanged
    } else if critical_change(meta.components, components) {
        Verdict::Critical(component_changes(meta.components, components))
    } else {
        Verdict::Refreshed(with_fingerprint(meta, hash, components))
    }
}

/// Compares stored metadata with the current fingerprint.
pub fn reconcile_fingerprint(
    metadata: &SecurityMetadata,
    hash: u64,
    components: &Vec<String>,
) -> (r: FingerprintVerdict)
    ensures
        r@ == reconcile(metadata@, hash, texts(components@)),
{
    if metadata.hardware_components.len() != 0 {
        if metadata.hardware_fingerprint_hash == hash {
            return FingerprintVerdict::Unchanged;
        }
        if is_critical_hardware_change(&metadata.hardware_components, components) {
            return FingerprintVerdict::Critical(
                changed_components(&metadata.hardware_components, components),
            );
        }
    }
    FingerprintVerdict::Refreshed(
        SecurityMetadata {
            version: metadata.version,
            created_timestamp: metadata.created_timestamp,
            hardware_fingerprint_hash: hash,
            hardware_components: clone_strings(components),
        },
    )
}

/// A stored hash that is not the current one never stays: the verdict is a
/// refusal where the critical components differ, and else the stored record
/// with the current fingerprint in place of the stored one.
pub proof fn lemma_differing_hash_is_classified(
    meta: MetadataView,
    hash: u64,
    components: Seq<Seq<char>>,
)
    requires
        meta.fingerprint_hash != hash,
    ensures
        !(reconcile(meta, hash, components) is Unchanged),
        meta.components.len() > 0 && critical_change(meta.components, components) ==> reconcile(
            meta,
            hash,
            components,
        ) == Verdict::Critical(component_changes(meta.components, components)),
        !critical_change(meta.components, components) ==> reconcile(meta, hash, components)
            == Verdict::Refreshed(with_fingerprint(meta, hash, components)),
{
}

/// The key that a password and a fingerprint hash lead to, if derivation
/// succeeds: Argon2id under this library's costs, salted with the hardware
/// salt.
pub open spec fn secure_key(password: Seq<char>, fingerprint_hash: u64) -> Option<Seq<u8>> {
    argon2id_key(
        password,
        hardware_salt(fingerprint_hash),
        KDF_MEMORY_KIB,
        KDF_ITERATIONS,
        KDF_LANES,
        KEY_LEN,
    )
}

/// Derives the session key from the password and the fingerprint hash.
pub fn derive_secure_key(password: &str, fingerprint_hash: u64) -> (r: Option<Vec<u8>>)
    ensures
        bytes_view(r) == secure_key(password@, fingerprint_hash),
        r matches Some(key) ==> key@.len() == KEY_LEN,
{
    let salt = generate_hardware_salt(fingerprint_hash);
    derive_key(password, salt.as_slice(), KDF_MEMORY_KIB, KDF_ITERATIONS, KDF_LANES, KEY_LEN)
}

/// What a session holds once it is ready.
pub struct ReadySession {
    /// The metadata that the session holds.
    pub metadata: MetadataView,
    /// The metadata that must be stored, if any.
    pub metadata_to_store: Option<MetadataView>,
    /// The derived key.
    pub key: Seq<u8>,
}

/// What a login is to do with the metadata once its tests have passed.
#[derive(Debug)]
pub struct LoginPlan {
    /// The metadata that the session will hold.
    pub metadata: SecurityMetadata,
    /// The metadata that must be stored, if any.
    pub metadata_to_store: Option<SecurityMetadata>,
}

/// A [`LoginPlan`] over texts.
pub struct Plan {
    pub metadata: MetadataView,
    pub metadata_to_store: Option<MetadataView>,
}

impl View for LoginPlan {
    type V = Plan;

    open spec fn view(&self) -> Plan {
        Plan {
            metadata: self.metadata@,
            metadata_to_store: metadata_view(self.metadata_to_store),
        }
    }
}

/// The view of a planning result.
pub open spec fn plan_result(res: Result<LoginPlan, CryptoError>) -> Result<Plan, CryptoFailure> {
    match res {
        Ok(plan) => Ok(plan@),
        Err(e) => Err(e@),
    }
}

/// What the tests of a login come to for a user that was set up before, given
/// the outcome of the password test, the stored record (`None` where it cannot
/// be read) and the current fingerprint.
///
/// The password is tested first and nothing else happens where it fails. The
/// fingerprint is tested next.
pub open spec fn existing_user_plan(
    check: Option<bool>,
    record: Option<MetadataView>,
    hash: u64,
    components: Seq<Seq<char>>,
) -> Result<Plan, CryptoFailure> {
    match check {
        None => Err(CryptoFailure::MalformedVerifier),
        Some(false) => Err(CryptoFailure::WrongPassword),
        Some(true) => match record {
            None => Err(CryptoFailure::MalformedMetadata),
            Some(meta) => match reconcile(meta, hash, components) {
                Verdict::Critical(notes) => Err(CryptoFailure::CriticalHardwareChange(notes)),
                Verdict::Unchanged => Ok(Plan { metadata: meta, metadata_to_store: None }),
                Verdict::Refreshed(m) => Ok(Plan { metadata: m, metadata_to_store: Some(m) }),
            },
        },
    }
}

/// What initialization comes to for a user that was set up before: the tests
/// of [`existing_user_plan`], and after them the derivation of the key.
pub open spec fn existing_user_result(
    check: Option<bool>,
    record: Option<MetadataView>,
    hash: u64,
    components: Seq<Seq<char>>,
    key: Option<Seq<u8>>,
) -> Result<ReadySession, CryptoFailure> {
    match existing_user_plan(check, record, hash, components) {
        Err(failure) => Err(failure),
        Ok(plan) => match key {
            None => Err(CryptoFailure::KeyDerivationFailed),
            Some(k) => Ok(
                ReadySession {
                    metadata: plan.metadata,
                    metadata_to_store: plan.metadata_to_store,
                    key: k,
                },
            ),
        },
    }
}

/// Makes the tests of a login for a user that was set up before, on the
/// outcome of the password test.
pub fn plan_existing_user(
    check: Option<bool>,
    record: Option<SecurityMetadata>,
    hash: u64,
    components: &Vec<String>,
) -> (res: Result<LoginPlan, CryptoError>)
    ensures
        plan_result(res) == existing_user_plan(
            check,
            metadata_view(record),
            hash,
            texts(components@),
        ),
{
    match check {
        None => {
            return Err(CryptoError::MalformedVerifier);
        },
        Some(false) => {
            return Err(CryptoError::WrongPassword);
        },
        Some(true) => {},
    }
    let metadata = match record {
        None => {
            return Err(CryptoError::MalformedMetadata);
        },
        Some(m) => m,
    };
    match reconcile_fingerprint(&metadata, hash, components) {
        FingerprintVerdict::Critical(notes) => Err(CryptoError::CriticalHardwareChange(notes)),
        FingerprintVerdict::Unchanged => Ok(LoginPlan { metadata, metadata_to_store: None }),
        FingerprintVerdict::Refreshed(m) => {
            let copy = m.clone();
            Ok(LoginPlan { metadata: m, metadata_to_store: Some(copy) })
        },
    }
}

/// The plan for a user that is set up at `now` on the machine with the given
/// fingerprint: new metadata, which is stored.
pub fn plan_new_user(now: u64, hash: u64, components: Vec<String>) -> (r: LoginPlan)
    ensures
        r@ == (Plan {
            metadata: new_metadata(now, hash, texts(components@)),
            metadata_to_store: Some(new_metadata(now, hash, texts(components@))),
        }),
{
    let metadata = SecurityMetadata {
        version: METADATA_VERSION,
        created_timestamp: now,
        hardware_fingerprint_hash: hash,
        hardware_components: components,
    };
    let copy = metadata.clone();
    LoginPlan { metadata, metadata_to_store: Some(copy) }
}

/// What the making of a verifier came to.
#[derive(Debug)]
pub enum VerifierStep {
    /// No verifier was to be made: the user has one.
    NotNeeded,
    /// The verifier that was made.
    Made(String),
    /// No verifier could be made.
    Failed,
}

impl VerifierStep {
    /// The verifier to store, if one was made.
    pub open spec fn to_store(self) -> Option<Seq<char>> {
        match self {
            VerifierStep::Made(v) => Some(v@),
            _ => None,
        }
    }
}

/// The metadata of a user that is set up at `now` on the machine with the
/// given fingerprint.
pub open spec fn new_metadata(now: u64, hash: u64, components: Seq<Seq<char>>) -> MetadataView {
    MetadataView {
        version: METADATA_VERSION,
        created_timestamp: now,
        fingerprint_hash: hash,
        components: components,
    }
}

/// The states of a session.
#[derive(Debug, Clone, Copy, PartialEq, Eq, Structural)]
pub enum SessionState {
    /// No initialization was tried yet.
    Uninitialized,
    /// The session holds a key.
    Ready,
    /// The last initialization failed; the session holds nothing.
    Failed,
}

/// A crypto session. It holds the derived key from a successful
/// initialization on; the key is never handed out.
pub struct CryptoManager {
    state: SessionState,
    key: Vec<u8>,
    user_id: Option<String>,
    security_metadata: Option<SecurityMetadata>,
}

impl CryptoManager {
    #[verifier::type_invariant]
    spec fn inv(self) -> bool {
        if self.state is Ready {
            self.key@.len() == KEY_LEN && self.user_id is Some && self.security_metadata is Some
        } else {
            self.key@.len() == 0 && self.user_id is None && self.security_metadata is None
        }
    }

    /// The session's state.
    pub closed spec fn session_state(&self) -> SessionState {
        self.state
    }

    /// The key that the session holds; empty unless the session is ready.
    pub closed spec fn session_key(&self) -> Seq<u8> {
        self.key@
    }

    /// The user that the session was initialized for.
    pub closed spec fn session_user(&self) -> Option<Seq<char>> {
        match self.user_id {
            Some(id) => Some(id@),
            None => None,
        }
    }

    /// The metadata that the session holds.
    pub closed spec fn session_metadata(&self) -> Option<MetadataView> {
        metadata_view(self.security_metadata)
    }

    /// Whether the session is ready for `user` with the given key and metadata.
    pub open spec fn is_ready_with(&self, user: Seq<char>, ready: ReadySession) -> bool {
        &&& self.session_state() is Ready
        &&& self.session_key() == ready.key
        &&& self.session_user() == Some(user)
        &&& self.session_metadata() == Some(ready.metadata)
    }

    /// Whether the session has failed and holds nothing.
    pub open spec fn is_failed(&self) -> bool {
        &&& self.session_state() is Failed
        &&& self.session_key().len() == 0
        &&& self.session_user() is None
        &&& self.session_metadata() is None
    }

    /// A session on which no initialization was tried.
    pub fn new() -> (r: Self)
        ensures
            r.session_state() is Uninitialized,
            r.session_key().len() == 0,
            r.session_user() is None,
            r.session_metadata() is None,
    {
        CryptoManager {
            state: SessionState::Uninitialized,
            key: Vec::new(),
            user_id: None,
            security_metadata: None,
        }
    }

    /// The session's state.
    pub fn state(&self) -> (r: SessionState)
        ensures
            r == self.session_state(),
    {
        self.state
    }

    /// Whether the session holds a key.
    pub fn is_ready(&self) -> (r: bool)
        ensures
            r == (self.session_state() is Ready),
    {
        match self.state {
            SessionState::Ready => true,
            _ => false,
        }
    }

    /// The user that the session was initialized for.
    pub fn user_id(&self) -> (r: Option<&str>)
        ensures
            match r {
                Some(id) => self.session_user() == Some(id@),
                None => self.session_user() is None,
            },
    {
        match &self.user_id {
            Some(id) => Some(id.as_str()),
            None => None,
        }
    }

    fn fail(&mut self)
        ensures
            final(self).is_failed(),
    {
        *self = CryptoManager {
            state: SessionState::Failed,
            key: Vec::new(),
            user_id: None,
            security_metadata: None,
        };
    }

    fn make_ready(&mut self, user_id: &str, key: Vec<u8>, metadata: SecurityMetadata)
        requires
            key@.len() == KEY_LEN,
        ensures
            final(self).is_ready_with(
                user_id@,
                ReadySession { metadata: metadata@, metadata_to_store: None, key: key@ },
            ),
    {
        *self = CryptoManager {
            state: SessionState::Ready,
            key,
            user_id: Some(user_id.to_owned()),
            security_metadata: Some(metadata),
        };
    }

    /// Whether `self` and `res` are what an initialization for `user` with
    /// `password` comes to, on the stored verifier and metadata, the
    /// environment `env` and the time `now`.
    pub open spec fn initialized_as(
        &self,
        res: Result<InitializationOutcome, CryptoError>,
        user: Seq<char>,
        password: Seq<char>,
        verifier: Option<Seq<char>>,
        metadata: StoredMetadata,
        env: HardwareEnvironment,
        now: u64,
    ) -> bool {
        if verifier is Some && !(metadata is Missing) {
            match existing_user_result(
                verifier_check(verifier->0, password),
                metadata.record(),
                env.fingerprint_hash(),
                env.sorted_components(),
                secure_key(password, env.fingerprint_hash()),
            ) {
                Ok(ready) => {
                    &&& res matches Ok(outcome)
                    &&& outcome.verifier_to_store is None
                    &&& metadata_view(outcome.metadata_to_store) == ready.metadata_to_store
                    &&& self.is_ready_with(user, ready)
                },
                Err(failure) => {
                    &&& res matches Err(e)
                    &&& e@ == failure
                    &&& self.is_failed()
                },
            }
        } else {
            let meta = new_metadata(now, env.fingerprint_hash(), env.sorted_components());
            match secure_key(password, env.fingerprint_hash()) {
                None => {
                    &&& res matches Err(e)
                    &&& e@ == CryptoFailure::KeyDerivationFailed
                    &&& self.is_failed()
                },
                Some(key) => match res {
                    Ok(outcome) => {
                        &&& outcome.verifier_to_store matches Some(v)
                        &&& verifier_check(v@, password) == Some(true)
                        &&& metadata_view(outcome.metadata_to_store) == Some(meta)
                        &&& self.is_ready_with(
                            user,
                            ReadySession { metadata: meta, metadata_to_store: Some(meta), key: key },
                        )
                    },
                    Err(e) => e@ == CryptoFailure::HashingFailed && self.is_failed(),
                },
            }
        }
    }

    /// Ends an initialization with what the derivation of the key and the
    /// making of a verifier gave.
    ///
    /// Without a key of [`KEY_LEN`] bytes the initialization fails at the
    /// derivation. Else, where a verifier was to be made and none came, it fails
    /// at the hashing. Else the session is ready for the user with the key and
    /// the planned metadata, and the outcome names what is to be stored. On
    /// failure the session holds nothing.
    pub fn complete_initialization(
        &mut self,
        user_id: &str,
        plan: LoginPlan,
        key: Option<Vec<u8>>,
        verifier: VerifierStep,
    ) -> (res: Result<InitializationOutcome, CryptoError>)
        ensures
            match key {
                Some(k) if k@.len() == KEY_LEN => if verifier is Failed {
                    &&& res matches Err(e)
                    &&& e@ == CryptoFailure::HashingFailed
                    &&& final(self).is_failed()
                } else {
                    &&& res matches Ok(outcome)
                    &&& text_view(outcome.verifier_to_store) == verifier.to_store()
                    &&& metadata_view(outcome.metadata_to_store) == plan@.metadata_to_store
                    &&& final(self).is_ready_with(
                        user_id@,
                        ReadySession {
                            metadata: plan@.metadata,
                            metadata_to_store: plan@.metadata_to_store,
                            key: k@,
                        },
                    )
                },
                _ => {
                    &&& res matches Err(e)
                    &&& e@ == CryptoFailure::KeyDerivationFailed
                    &&& final(self).is_failed()
                },
            },
    {
        let key = match key {
            Some(k) => {
                if k.len() != KEY_LEN {
                    self.fail();
                    return Err(CryptoError::KeyDerivationFailed);
                }
                k
            },
            None => {
                self.fail();
                return Err(CryptoError::KeyDerivationFailed);
            },
        };
        let verifier_to_store = match verifier {
            VerifierStep::Failed => {
                self.fail();
                return Err(CryptoError::HashingFailed);
            },
            VerifierStep::Made(v) => Some(v),
            VerifierStep::NotNeeded => None,
        };
        let LoginPlan { metadata, metadata_to_store } = plan;
        self.make_ready(user_id, key, metadata);
        Ok(InitializationOutcome { verifier_to_store, metadata_to_store })
    }

    fn initialize_existing(
        &mut self,
        user_id: &str,
        password: &str,
        verifier: &str,
        record: Option<SecurityMetadata>,
        env: &HardwareEnvironment,
    ) -> (res: Result<InitializationOutcome, CryptoError>)
        ensures
            match existing_user_result(
                verifier_check(verifier@, password@),
                metadata_view(record),
                env.fingerprint_hash(),
                env.sorted_components(),
                secure_key(password@, env.fingerprint_hash()),
            ) {
                Ok(ready) => {
                    &&& res matches Ok(outcome)
                    &&& outcome.verifier_to_store is None
                    &&& metadata_view(outcome.metadata_to_store) == ready.metadata_to_store
                    &&& final(self).is_ready_with(user_id@, ready)
                },
                Err(failure) => {
                    &&& res matches Err(e)
                    &&& e@ == failure
                    &&& final(self).is_failed()
                },
            },
    {
        let (hash, components) = generate_stable_hardware_fingerprint(env);
        let check = test_password(verifier, password);
        match plan_existing_user(check, record, hash, &components) {
            Err(e) => {
                self.fail();
                Err(e)
            },
            Ok(plan) => {
                let key = derive_secure_key(password, hash);
                self.complete_initialization(user_id, plan, key, VerifierStep::NotNeeded)
            },
        }
    }

    fn initialize_new(
        &mut self,
        user_id: &str,
        password: &str,
        env: &HardwareEnvironment,
        now: u64,
    ) -> (res: Result<InitializationOutcome, CryptoError>)
        ensures
            ({
                let meta = new_metadata(now, env.fingerprint_hash(), env.sorted_components());
                match secure_key(password@, env.fingerprint_hash()) {
                    None => {
                        &&& res matches Err(e)
                        &&& e@ == CryptoFailure::KeyDerivationFailed
                        &&& final(self).is_failed()
                    },
                    Some(key) => match res {
                        Ok(outcome) => {
                            &&& outcome.verifier_to_store matches Some(v)
                            &&& verifier_check(v@, password@) == Some(true)
                            &&& metadata_view(outcome.metadata_to_store) == Some(meta)
                            &&& final(self).is_ready_with(
                                user_id@,
                                ReadySession {
                                    metadata: meta,
                                    metadata_to_store: Some(meta),
                                    key: key,
                                },
                            )
                        },
                        Err(e) => e@ == CryptoFailure::HashingFailed && final(self).is_failed(),
                    },
                }
            }),
    {
        let (hash, components) = generate_stable_hardware_fingerprint(env);
        let plan = plan_new_user(now, hash, components);
        match derive_secure_key(password, hash) {
            None => self.complete_initialization(user_id, plan, None, VerifierStep::NotNeeded),
            Some(key) => {
                let verifier = match make_verifier(password) {
                    Some(pair) => VerifierStep::Made(pair.0),
                    None => VerifierStep::Failed,
                };
                self.complete_initialization(user_id, plan, Some(key), verifier)
            },
        }
    }

    /// Initializes the session for `user_id` with `password`.
    ///
    /// `stored` is what the caller read of the user's verifier and metadata,
    /// `env` what it read of the environment, `now` the time in seconds since
    /// the Unix epoch. The result says what the caller must store.
    ///
    /// For a user that was set up before, the password is tested against the
    /// stored verifier, then the stored fingerprint against the current one,
    /// and then the key is derived: the outcome is [`existing_user_result`].
    /// For a new user, metadata and a verifier are made; the verifier is salted
    /// at random, so of it the contract says only that the password verifies
    /// against it. On every failure the session ends up holding nothing.
    pub fn initialize_for_user(
        &mut self,
        user_id: &str,
        password: &str,
        stored: StoredCredentials,
        env: &HardwareEnvironment,
        now: u64,
    ) -> (res: Result<InitializationOutcome, CryptoError>)
        ensures
            final(self).initialized_as(
                res,
                user_id@,
                password@,
                text_view(stored.verifier),
                stored.metadata,
                *env,
                now,
            ),
    {
        match stored.verifier {
            Some(verifier) => match stored.metadata {
                StoredMetadata::Missing => self.initialize_new(user_id, password, env, now),
                StoredMetadata::Malformed => self.initialize_existing(
                    user_id,
                    password,
                    verifier.as_str(),
                    None,
                    env,
                ),
                StoredMetadata::Present(m) => self.initialize_existing(
                    user_id,
                    password,
                    verifier.as_str(),
                    Some(m),
                    env,
                ),
            },
            None => self.initialize_new(user_id, password, env, now),
        }
    }

    /// What [`CryptoManager::encrypt_with_nonce`] returns.
    pub open spec fn encrypt_spec(&self, nonce: Seq<u8>, data: Seq<u8>) -> Result<
        Seq<u8>,
        CryptoFailure,
    > {
        if self.session_state() is Ready {
            sealed_blob(self.session_key(), nonce, data)
        } else {
            Err(CryptoFailure::NotInitialized)
        }
    }

    /// What [`CryptoManager::decrypt`] returns.
    pub open spec fn decrypt_spec(&self, blob: Seq<u8>) -> Result<Seq<u8>, CryptoFailure> {
        if self.session_state() is Ready {
            opened_blob(self.session_key(), blob)
        } else {
            Err(CryptoFailure::NotInitialized)
        }
    }

    /// Encrypts `data` under the session key and the given nonce and returns
    /// the nonce followed by the ciphertext. A nonce must never be used twice
    /// under one key: [`CryptoManager::encrypt`] draws a fresh one.
    pub fn encrypt_with_nonce(&self, nonce: &[u8], data: &[u8]) -> (res: Result<
        Vec<u8>,
        CryptoError,
    >)
        requires
            nonce@.len() == NONCE_LEN,
        ensures
            bytes_result(res) == self.encrypt_spec(nonce@, data@),
            res matches Ok(blob) ==> blob@.len() == NONCE_LEN + data@.len() + TAG_LEN,
            res matches Ok(blob) ==> self.decrypt_spec(blob@) == Ok::<Seq<u8>, CryptoFailure>(
                data@,
            ),
    {
        proof {
            use_type_invariant(self);
        }
        if !self.is_ready() {
            return Err(CryptoError::NotInitialized);
        }
        let sealed = seal(self.key.as_slice(), nonce, data);
        proof {
            if sealed is Some {
                lemma_blob_parts(nonce@, sealed->0@);
            }
        }
        frame_blob(nonce, sealed)
    }

    /// Encrypts `data` under the session key with a fresh random nonce and
    /// returns the nonce followed by the ciphertext.
    ///
    /// The blob is what [`CryptoManager::encrypt_with_nonce`] gives for some
    /// nonce, and [`CryptoManager::decrypt`] on the same session maps it back
    /// to `data`.
    pub fn encrypt(&self, data: &[u8]) -> (res: Result<Vec<u8>, CryptoError>)
        ensures
            exists|nonce: Seq<u8>|
                nonce.len() == NONCE_LEN && bytes_result(res) == #[trigger] self.encrypt_spec(
                    nonce,
                    data@,
                ),
            !(self.session_state() is Ready) ==> (res matches Err(e) && e@
                == CryptoFailure::NotInitialized),
            res matches Ok(blob) ==> blob@.len() == NONCE_LEN + data@.len() + TAG_LEN,
            res matches Ok(blob) ==> self.decrypt_spec(blob@) == Ok::<Seq<u8>, CryptoFailure>(
                data@,
            ),
    {
        let nonce = fresh_nonce();
        self.encrypt_with_nonce(nonce.as_slice(), data)
    }

    /// Splits the nonce off `blob` and decrypts the rest under the session key.
    pub fn decrypt(&self, blob: &[u8]) -> (res: Result<Vec<u8>, CryptoError>)
        ensures
            bytes_result(res) == self.decrypt_spec(blob@),
            res matches Ok(plaintext) ==> blob@.len() == NONCE_LEN + plaintext@.len() + TAG_LEN,
    {
        proof {
            use_type_invariant(self);
        }
        if !self.is_ready() {
            return Err(CryptoError::NotInitialized);
        }
        let (nonce, ciphertext) = match split_blob(blob) {
            Err(e) => {
                return Err(e);
            },
            Ok(parts) => parts,
        };
        if ciphertext.len() < TAG_LEN {
            return Err(CryptoError::AuthenticationFailure);
        }
        match unseal(self.key.as_slice(), nonce, ciphertext) {
            Some(plaintext) => Ok(plaintext),
            None => Err(CryptoError::AuthenticationFailure),
        }
    }
}

/// Puts a blob together: the nonce, then the ciphertext with its tag; or the
/// failure where the cipher gave no ciphertext.
pub fn frame_blob(nonce: &[u8], sealed: Option<Vec<u8>>) -> (res: Result<Vec<u8>, CryptoError>)
    ensures
        match sealed {
            Some(ciphertext) => res matches Ok(blob) && blob@ == nonce@ + ciphertext@,
            None => res matches Err(e) && e@ == CryptoFailure::EncryptionFailed,
        },
{
    match sealed {
        None => Err(CryptoError::EncryptionFailed),
        Some(ciphertext) => {
            let mut blob: Vec<u8> = Vec::new();
            blob.extend_from_slice(nonce);
            blob.extend_from_slice(ciphertext.as_slice());
            assert(blob@ =~= nonce@ + ciphertext@);
            Ok(blob)
        },
    }
}

/// Takes a blob apart into the nonce, its first [`NONCE_LEN`] bytes, and the
/// ciphertext, the rest. A blob shorter than a nonce is malformed.
pub fn split_blob(blob: &[u8]) -> (res: Result<(&[u8], &[u8]), CryptoError>)
    ensures
        match res {
            Ok(parts) => blob@.len() >= NONCE_LEN && parts.0@ == blob@.take(NONCE_LEN as int)
                && parts.1@ == blob@.skip(NONCE_LEN as int),
            Err(e) => blob@.len() < NONCE_LEN && e@ == CryptoFailure::InvalidFormat,
        },
{
    if blob.len() < NONCE_LEN {
        return Err(CryptoError::InvalidFormat);
    }
    let nonce = slice_subrange(blob, 0, NONCE_LEN);
    let ciphertext = slice_subrange(blob, NONCE_LEN, blob.len());
    assert(nonce@ =~= blob@.take(NONCE_LEN as int));
    assert(ciphertext@ =~= blob@.skip(NONCE_LEN as int));
    Ok((nonce, ciphertext))
}

/// The view of a result that holds bytes.
pub open spec fn bytes_result(r: Result<Vec<u8>, CryptoError>) -> Result<Seq<u8>, CryptoFailure> {
    match r {
        Ok(b) => Ok(b@),
        Err(e) => Err(e@),
    }
}

/// The blob for a plaintext under a key and a nonce: the nonce, then the
/// ciphertext with its tag.
pub open spec fn sealed_blob(key: Seq<u8>, nonce: Seq<u8>, plaintext: Seq<u8>) -> Result<
    Seq<u8>,
    CryptoFailure,
> {
    match aead_seal(key, nonce, plaintext) {
        Some(ciphertext) => Ok(nonce + ciphertext),
        None => Err(CryptoFailure::EncryptionFailed),
    }
}

/// The plaintext of a blob under a key: the first twelve bytes are the nonce,
/// the rest is handed to the cipher. A blob shorter than a nonce is malformed;
/// one that has a nonce but no room for a tag is not authentic.
pub open spec fn opened_blob(key: Seq<u8>, blob: Seq<u8>) -> Result<Seq<u8>, CryptoFailure> {
    if blob.len() < NONCE_LEN {
        Err(CryptoFailure::InvalidFormat)
    } else if blob.len() < NONCE_LEN + TAG_LEN {
        Err(CryptoFailure::AuthenticationFailure)
    } else {
        match aead_open(key, blob.take(NONCE_LEN as int), blob.skip(NONCE_LEN as int)) {
            Some(plaintext) => Ok(plaintext),
            None => Err(CryptoFailure::AuthenticationFailure),
        }
    }
}

/// A blob falls apart into the nonce and the ciphertext it was put together
/// from.
pub proof fn lemma_blob_parts(nonce: Seq<u8>, ciphertext: Seq<u8>)
    requires
        nonce.len() == NONCE_LEN,
    ensures
        (nonce + ciphertext).len() == NONCE_LEN + ciphertext.len(),
        (nonce + ciphertext).take(NONCE_LEN as int) == nonce,
        (nonce + ciphertext).skip(NONCE_LEN as int) == ciphertext,
{
    assert((nonce + ciphertext).take(NONCE_LEN as int) =~= nonce);
    assert((nonce + ciphertext).skip(NONCE_LEN as int) =~= ciphertext);
}

/// Decryption undoes encryption: where the cipher opens what it sealed, and
/// what it sealed carries a tag, the blob made for a plaintext under a key and
/// a nonce opens to that plaintext under the same key.
pub proof fn lemma_round_trip(key: Seq<u8>, nonce: Seq<u8>, plaintext: Seq<u8>)
    requires
        nonce.len() == NONCE_LEN,
        aead_seal(key, nonce, plaintext) matches Some(c) && c.len() == plaintext.len() + TAG_LEN
            && aead_open(key, nonce, c) == Some(plaintext),
    ensures
        sealed_blob(key, nonce, plaintext) matches Ok(blob) && opened_blob(key, blob) == Ok::<
            Seq<u8>,
            CryptoFailure,
        >(plaintext),
{
    lemma_blob_parts(nonce, aead_seal(key, nonce, plaintext)->0);
}

/// A blob is opened with the nonce it carries and with nothing else: a blob
/// shorter than a nonce is malformed and no other blob is; a blob that has no
/// room for a tag behind the nonce is never opened; and any longer blob is
/// authentic exactly where the cipher accepts the rest of it under its first
/// twelve bytes.
pub proof fn lemma_decrypt_failures(key: Seq<u8>, blob: Seq<u8>)
    ensures
        opened_blob(key, blob) == Err::<Seq<u8>, CryptoFailure>(CryptoFailure::InvalidFormat)
            <==> blob.len() < NONCE_LEN,
        NONCE_LEN <= blob.len() < NONCE_LEN + TAG_LEN ==> opened_blob(key, blob) == Err::<
            Seq<u8>,
            CryptoFailure,
        >(CryptoFailure::AuthenticationFailure),
        blob.len() >= NONCE_LEN + TAG_LEN ==> (opened_blob(key, blob) == Err::<
            Seq<u8>,
            CryptoFailure,
        >(CryptoFailure::AuthenticationFailure) <==> aead_open(
            key,
            blob.take(NONCE_LEN as int),
            blob.skip(NONCE_LEN as int),
        ) is None),
{
}

/// A second login on the same machine changes nothing and finds the same
/// key: against the metadata that a first initialization made for a fingerprint
/// with components, the same fingerprint and a password that verifies lead to a
/// session with that metadata and with the derived key, and nothing is to be
/// stored.
pub proof fn lemma_same_machine_same_session(
    now: u64,
    hash: u64,
    components: Seq<Seq<char>>,
    key: Seq<u8>,
)
    requires
        components.len() > 0,
    ensures
        existing_user_result(
            Some(true),
            Some(new_metadata(now, hash, components)),
            hash,
            components,
            Some(key),
        ) == Ok::<ReadySession, CryptoFailure>(
            ReadySession {
                metadata: new_metadata(now, hash, components),
                metadata_to_store: None,
                key: key,
            },
        ),
{
}

/// A password that the stored verifier rejects leads to no session, whatever
/// the stored record, the fingerprint and the key are.
pub proof fn lemma_wrong_password_rejected(
    record: Option<MetadataView>,
    hash: u64,
    components: Seq<Seq<char>>,
    key: Option<Seq<u8>>,
)
    ensures
        existing_user_result(Some(false), record, hash, components, key) == Err::<
            ReadySession,
            CryptoFailure,
        >(CryptoFailure::WrongPassword),
{
}

/// The warning that heads the list when the fingerprint has changed.
pub open spec fn fingerprint_warning() -> Seq<char> {
    "Hardware fingerprint has changed since last login"@
}

/// What an audit reports: nothing without metadata or where the stored hash
/// is the current one, else the warning and one note for each component that
/// drifted.
pub open spec fn audit_warnings(
    metadata: Option<MetadataView>,
    hash: u64,
    components: Seq<Seq<char>>,
) -> Seq<Seq<char>> {
    match metadata {
        None => Seq::empty(),
        Some(m) => if m.fingerprint_hash != hash {
            seq![fingerprint_warning()] + component_drift(m.components, components)
        } else {
            Seq::empty()
        },
    }
}

/// The chrono pattern for the time of creation in the security report.
pub open spec fn created_pattern() -> Seq<char> {
    "%Y-%m-%d %H:%M:%S UTC"@
}

/// The time of creation as the security report shows it.
pub open spec fn created_text(timestamp: u64) -> Seq<char> {
    if timestamp <= i64::MAX {
        match utc_text(timestamp as i64, 0, created_pattern()) {
            Some(t) => t,
            None => "Unknown"@,
        }
    } else {
        "Unknown"@
    }
}

/// The fingerprint components as the security report shows them.
pub open spec fn components_text(components: Seq<Seq<char>>) -> Seq<char> {
    if components.len() == 0 {
        "Legacy format (upgraded)"@
    } else {
        join_texts(components, ", "@)
    }
}

/// The security report for a metadata record with the given text for its
/// time of creation.
pub open spec fn security_report_text(m: MetadataView, created: Seq<char>) -> Seq<char> {
    "Security Level: Standard (Production)\nVersion: "@ + decimal_text(m.version as nat)
        + "\nCreated: "@ + created
        + "\nHardware Bound: Yes\nMemory Cost: 128 MB\nIterations: 3\nParallelism: 4\nHardware Components: "@
        + components_text(m.components)
}

/// The security report for a metadata record.
pub open spec fn security_info_text(m: MetadataView) -> Seq<char> {
    security_report_text(m, created_text(m.created_timestamp))
}

/// Writes the security report for a metadata record, with `created` as the
/// text for its time of creation.
pub fn security_report(metadata: &SecurityMetadata, created: &str) -> (r: String)
    ensures
        r@ == security_report_text(metadata@, created@),
{
    let components = if metadata.hardware_components.len() == 0 {
        "Legacy format (upgraded)".to_owned()
    } else {
        join_strings(&metadata.hardware_components, ", ")
    };
    let mut text = "Security Level: Standard (Production)\nVersion: ".to_owned();
    text.append(decimal_string(metadata.version as u64).as_str());
    text.append("\nCreated: ");
    text.append(created);
    text.append(
        "\nHardware Bound: Yes\nMemory Cost: 128 MB\nIterations: 3\nParallelism: 4\nHardware Components: ",
    );
    text.append(components.as_str());
    text
}

fn created_string(timestamp: u64) -> (r: String)
    ensures
        r@ == created_text(timestamp),
{
    if timestamp <= 0x7fff_ffff_ffff_ffff {
        match format_utc(timestamp as i64, 0, "%Y-%m-%d %H:%M:%S UTC") {
            Some(t) => t,
            None => "Unknown".to_owned(),
        }
    } else {
        "Unknown".to_owned()
    }
}

/// What the caller must do after a change of password. The steps and their
/// order are those of `StorageManager::password_change_steps`.
#[derive(Debug)]
pub struct PasswordChange {
    /// The verifier of the new password. It is stored in any case, before
    /// anything that the initialization asks for.
    pub verifier_to_store: String,
    /// How the initialization with the new password ended.
    pub initialization: Result<InitializationOutcome, CryptoError>,
}

impl CryptoManager {
    /// Compares the fingerprint of `env` with the metadata that the session
    /// holds and reports what changed. Nothing is altered.
    pub fn security_audit(&self, env: &HardwareEnvironment) -> (r: Vec<String>)
        ensures
            texts(r@) == audit_warnings(
                self.session_metadata(),
                env.fingerprint_hash(),
                env.sorted_components(),
            ),
    {
        let mut warnings: Vec<String> = Vec::new();
        match &self.security_metadata {
            None => {},
            Some(metadata) => {
                let (hash, components) = generate_stable_hardware_fingerprint(env);
                if metadata.hardware_fingerprint_hash != hash {
                    warnings.push("Hardware fingerprint has changed since last login".to_owned());
                    assert(texts(warnings@) =~= seq![fingerprint_warning()]);
                    push_drift_notes(&mut warnings, &metadata.hardware_components, &components);
                }
            },
        }
        assert(self.security_metadata is None ==> texts(warnings@) =~= Seq::<Seq<char>>::empty());
        warnings
    }

    /// The security report of the session, where it holds metadata.
    pub fn get_security_info(&self) -> (r: Option<String>)
        ensures
            match self.session_metadata() {
                Some(m) => r matches Some(text) && text@ == security_info_text(m),
                None => r is None,
            },
    {
        match &self.security_metadata {
            None => None,
            Some(metadata) => {
                let created = created_string(metadata.created_timestamp);
                Some(security_report(metadata, created.as_str()))
            },
        }
    }

    /// What [`CryptoManager::change_password`] comes to. Without a stored
    /// verifier, with one that cannot be read, or with a wrong old password the
    /// call fails and the session is as it was; so it is where no new verifier
    /// can be made. Otherwise the password verifies against the new verifier,
    /// and the session is what an initialization with the new password against
    /// the new verifier leaves.
    pub open spec fn password_changed(
        self,
        after: CryptoManager,
        res: Result<PasswordChange, CryptoError>,
        old_password: Seq<char>,
        new_password: Seq<char>,
        user: Seq<char>,
        verifier: Option<Seq<char>>,
        metadata: StoredMetadata,
        env: HardwareEnvironment,
        now: u64,
    ) -> bool {
        match verifier {
            None => {
                &&& res matches Err(e)
                &&& e@ == CryptoFailure::UserConfigurationNotFound
                &&& after == self
            },
            Some(v) => match verifier_check(v, old_password) {
                None => {
                    &&& res matches Err(e)
                    &&& e@ == CryptoFailure::MalformedVerifier
                    &&& after == self
                },
                Some(false) => {
                    &&& res matches Err(e)
                    &&& e@ == CryptoFailure::IncorrectCurrentPassword
                    &&& after == self
                },
                Some(true) => match res {
                    Err(e) => e@ == CryptoFailure::HashingFailed && after == self,
                    Ok(change) => {
                        &&& verifier_check(change.verifier_to_store@, new_password)
                            == Some(true)
                        &&& after.initialized_as(
                            change.initialization,
                            user,
                            new_password,
                            Some(change.verifier_to_store@),
                            metadata,
                            env,
                            now,
                        )
                    },
                },
            },
        }
    }

    /// The directory to remove with all it holds when a user's verifier and
    /// metadata are deleted: the user's directory below `config_dir`. `None`,
    /// and nothing to do, where the directory does not exist. The deletion
    /// cannot be undone.
    pub fn delete_user_crypto_data(
        &self,
        config_dir: &str,
        user_id: &str,
        present: bool,
    ) -> (r: Option<Vec<String>>)
        ensures
            match r {
                Some(path) => present && texts(path@) == seq![config_dir@, "users"@, user_id@],
                None => !present,
            },
    {
        if !present {
            return None;
        }
        let mut path: Vec<String> = Vec::new();
        path.push(config_dir.to_owned());
        path.push("users".to_owned());
        path.push(user_id.to_owned());
        assert(texts(path@) =~= seq![config_dir@, "users"@, user_id@]);
        Some(path)
    }

    /// Changes the password of `user_id`.
    ///
    /// The old password is tested against the stored verifier. Where it
    /// verifies, a verifier for the new password is made, which the caller
    /// stores, and the session is initialized anew with the new password
    /// against that verifier. Where the old password does not verify, or no new
    /// verifier can be made, the session is left as it was.
    ///
    /// Data that was encrypted under the old key is not touched: the caller
    /// decrypts it with the old session before this call and encrypts it again
    /// after it.
    pub fn change_password(
        &mut self,
        old_password: &str,
        new_password: &str,
        user_id: &str,
        stored: StoredCredentials,
        env: &HardwareEnvironment,
        now: u64,
    ) -> (res: Result<PasswordChange, CryptoError>)
        ensures
            old(self).password_changed(
                *final(self),
                res,
                old_password@,
                new_password@,
                user_id@,
                text_view(stored.verifier),
                stored.metadata,
                *env,
                now,
            ),
    {
        let verifier = match stored.verifier {
            None => {
                return Err(CryptoError::UserConfigurationNotFound);
            },
            Some(v) => v,
        };
        match test_password(verifier.as_str(), old_password) {
            None => {
                return Err(CryptoError::MalformedVerifier);
            },
            Some(false) => {
                return Err(CryptoError::IncorrectCurrentPassword);
            },
            Some(true) => {},
        }
        let new_verifier = match make_verifier(new_password) {
            None => {
                return Err(CryptoError::HashingFailed);
            },
            Some(pair) => pair.0,
        };
        let initialization = self.initialize_for_user(
            user_id,
            new_password,
            StoredCredentials { verifier: Some(new_verifier.clone()), metadata: stored.metadata },
            env,
            now,
        );
        Ok(PasswordChange { verifier_to_store: new_verifier, initialization })
    }
}

} // verus!
