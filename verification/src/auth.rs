//! An authentication attempt: what it asks for, the steps it takes between
//! the caller's reads and writes, and what it ends in.

use crate::crypto::{CryptoManager, InitializationOutcome, StoredCredentials};
use crate::errors::{AccountError, CryptoError, CryptoFailure};
use crate::fingerprint::HardwareEnvironment;
use crate::primitives::text_view;
use crate::user::{User, UserManager, UserView};
use vstd::prelude::*;

verus! {

/// Whether the user logs in or registers.
#[derive(Debug, Clone, Copy, PartialEq, Eq, Structural)]
pub enum AuthMode {
    /// Log in with existing credentials.
    Login,
    /// Create a new account.
    Register,
}

/// The step of an attempt at which it failed.
#[derive(Debug, Clone, Copy, PartialEq, Eq, Structural)]
pub enum AuthStage {
    /// Creating the account, or saving the registry.
    Registration,
    /// Logging in to the account that was just created.
    AuthenticationAfterRegistration,
    /// Initializing the crypto session of an account that was just created.
    CryptoInitialization,
    /// Logging in.
    Login,
    /// Initializing the crypto session after a login.
    Authentication,
}

impl AuthStage {
    /// The words that stand before the cause in the message.
    pub open spec fn prefix_text(self) -> Seq<char> {
        match self {
            AuthStage::Registration => "Registration failed: "@,
            AuthStage::AuthenticationAfterRegistration => "Authentication after registration failed: "@,
            AuthStage::CryptoInitialization => "Crypto initialization failed: "@,
            AuthStage::Login => "Login failed: "@,
            AuthStage::Authentication => "Authentication failed: "@,
        }
    }

    /// The words that stand before the cause in the message.
    pub fn prefix(&self) -> (r: &'static str)
        ensures
            r@ == self.prefix_text(),
    {
        match self {
            AuthStage::Registration => "Registration failed: ",
            AuthStage::AuthenticationAfterRegistration => "Authentication after registration failed: ",
            AuthStage::CryptoInitialization => "Crypto initialization failed: ",
            AuthStage::Login => "Login failed: ",
            AuthStage::Authentication => "Authentication failed: ",
        }
    }
}

/// The stage at which a failure of the crypto session is reported.
pub open spec fn crypto_stage(is_registration: bool) -> AuthStage {
    if is_registration {
        AuthStage::CryptoInitialization
    } else {
        AuthStage::Authentication
    }
}

/// Why a step failed.
#[derive(Debug)]
pub enum AuthCause {
    /// The registry turned the request down.
    Account(AccountError),
    /// The crypto session failed.
    Crypto(CryptoError),
    /// The caller could not read or write; the text is its report.
    Io(String),
}

/// An [`AuthCause`] over texts.
pub enum Cause {
    Account(AccountError),
    Crypto(CryptoFailure),
    Io(Seq<char>),
}

impl View for AuthCause {
    type V = Cause;

    open spec fn view(&self) -> Cause {
        match self {
            AuthCause::Account(e) => Cause::Account(*e),
            AuthCause::Crypto(e) => Cause::Crypto(e@),
            AuthCause::Io(detail) => Cause::Io(detail@),
        }
    }
}

impl Cause {
    /// The cause in words.
    pub open spec fn message_text(self) -> Seq<char> {
        match self {
            Cause::Account(e) => e.message_text(),
            Cause::Crypto(e) => e.message_text(),
            Cause::Io(detail) => detail,
        }
    }
}

/// How an attempt failed.
#[derive(Debug)]
pub enum AuthError {
    /// A step failed.
    Stage { stage: AuthStage, cause: AuthCause },
    /// The application has no registry.
    UserManagerUnavailable,
    /// The attempt ended without a result, or was driven out of order.
    ProcessFailed,
}

/// An [`AuthError`] over texts.
pub enum AuthFailure {
    Stage { stage: AuthStage, cause: Cause },
    UserManagerUnavailable,
    ProcessFailed,
}

impl View for AuthError {
    type V = AuthFailure;

    open spec fn view(&self) -> AuthFailure {
        match self {
            AuthError::Stage { stage, cause } => AuthFailure::Stage { stage: *stage, cause: cause@ },
            AuthError::UserManagerUnavailable => AuthFailure::UserManagerUnavailable,
            AuthError::ProcessFailed => AuthFailure::ProcessFailed,
        }
    }
}

impl AuthFailure {
    /// The message shown to the user.
    pub open spec fn message_text(self) -> Seq<char> {
        match self {
            AuthFailure::Stage { stage, cause } => stage.prefix_text() + cause.message_text(),
            AuthFailure::UserManagerUnavailable => "User manager not available"@,
            AuthFailure::ProcessFailed => "Authentication process failed"@,
        }
    }
}

impl AuthError {
    /// The message shown to the user.
    pub fn message(&self) -> (r: String)
        ensures
            r@ == self@.message_text(),
    {
        match self {
            AuthError::Stage { stage, cause } => {
                let mut text = stage.prefix().to_owned();
                match cause {
                    AuthCause::Account(e) => text.append(e.message().as_str()),
                    AuthCause::Crypto(e) => text.append(e.message().as_str()),
                    AuthCause::Io(detail) => text.append(detail.as_str()),
                }
                text
            },
            AuthError::UserManagerUnavailable => "User manager not available".to_owned(),
            AuthError::ProcessFailed => "Authentication process failed".to_owned(),
        }
    }
}

/// What an attempt ends in.
pub enum AuthResult {
    /// The user is logged in: the ready session and the identity.
    Success(CryptoManager, User),
    /// The attempt failed.
    Error(AuthError),
}

/// What an attempt is started with.
pub struct AuthRequest {
    /// The username as typed.
    pub username: String,
    /// The password as typed.
    pub password: String,
    /// Whether an account is to be created first.
    pub is_registration: bool,
    /// The worker's own copy of the registry, if the application has one.
    pub user_manager: Option<UserManager>,
}

/// What the caller is asked to do next.
pub enum AuthAction {
    /// Write the registry of [`AuthFlow::SavingRegistry`] to storage, then
    /// report with [`AuthEvent::RegistrySaved`].
    SaveRegistry,
    /// Read the stored credentials of the user, the environment and the
    /// clock, then report with [`AuthEvent::CredentialsRead`].
    ReadCredentials { user_id: String },
    /// Store what the initialization made for the user, then report with
    /// [`AuthEvent::CredentialsStored`].
    StoreCredentials { user_id: String, outcome: InitializationOutcome },
    /// Deliver the result; the attempt is over.
    Finish(AuthResult),
}

/// What the caller reports.
pub enum AuthEvent {
    /// The attempt begins.
    Begin,
    /// The registry was saved, or could not be.
    RegistrySaved(Result<(), String>),
    /// What was read of the user's credentials, the environment and the clock.
    CredentialsRead { stored: StoredCredentials, env: HardwareEnvironment, now: u64 },
    /// The user's credentials could not be read.
    CredentialsUnreadable(String),
    /// The credentials were stored, or could not be.
    CredentialsStored(Result<(), String>),
}

/// An authentication attempt between the caller's reads and writes.
pub enum AuthFlow {
    /// Nothing has happened yet.
    Start(AuthRequest),
    /// The account is created in this registry, which is being saved.
    SavingRegistry { username: String, password: String, user_manager: UserManager },
    /// The user is logged in; the stored credentials are being read.
    ReadingCredentials { password: String, is_registration: bool, user: User },
    /// The session is ready; what it made is being stored.
    StoringCredentials { is_registration: bool, crypto: CryptoManager, user: User },
    /// The attempt is over.
    Done,
}

/// Whether the attempt ends here with the given failure.
pub open spec fn finishes_with(next: AuthFlow, action: AuthAction, failure: AuthFailure) -> bool {
    &&& next is Done
    &&& action matches AuthAction::Finish(AuthResult::Error(e))
    &&& e@ == failure
}

/// Whether the attempt ends here with the given session and user.
pub open spec fn succeeds_with(
    next: AuthFlow,
    action: AuthAction,
    session: CryptoManager,
    user: UserView,
) -> bool {
    &&& next is Done
    &&& action matches AuthAction::Finish(AuthResult::Success(c, u))
    &&& c == session
    &&& u@ == user
}

/// What a login against a registry leads to: on to the credentials of the
/// identity that the registry authenticates, or the end.
pub open spec fn login_outcome(
    registry: UserManager,
    username: Seq<char>,
    password: Seq<char>,
    stage: AuthStage,
    is_registration: bool,
    next: AuthFlow,
    action: AuthAction,
) -> bool {
    match registry.authenticated(username, password) {
        Some(user) => {
            &&& next matches AuthFlow::ReadingCredentials { password: p, is_registration: r, user: u }
            &&& p@ == password
            &&& r == is_registration
            &&& u@ == user
            &&& action matches AuthAction::ReadCredentials { user_id }
            &&& user_id@ == user.id
        },
        None => finishes_with(
            next,
            action,
            AuthFailure::Stage {
                stage: stage,
                cause: Cause::Account(AccountError::InvalidCredentials),
            },
        ),
    }
}

/// What a registration leads to: the end where the registry turns it down,
/// else on to saving the registry that [`UserManager::create_user`] has made.
pub open spec fn registration_outcome(
    registry: UserManager,
    username: Seq<char>,
    password: Seq<char>,
    next: AuthFlow,
    action: AuthAction,
) -> bool {
    exists|after: UserManager, res: Result<(), AccountError>|
        {
            &&& #[trigger] registry.created(after, res, username, password)
            &&& match res {
                Err(e) => finishes_with(
                    next,
                    action,
                    AuthFailure::Stage { stage: AuthStage::Registration, cause: Cause::Account(e) },
                ),
                Ok(_) => {
                    &&& next matches AuthFlow::SavingRegistry { username: n, password: p, user_manager: m }
                    &&& n@ == username
                    &&& p@ == password
                    &&& m == after
                    &&& action is SaveRegistry
                },
            }
        }
}

/// What the initialization of the session leads to: the end with a failure
/// of the session, the end with success where nothing is to be stored, else on
/// to storing.
pub open spec fn initialization_outcome(
    password: Seq<char>,
    is_registration: bool,
    user: UserView,
    stored: StoredCredentials,
    env: HardwareEnvironment,
    now: u64,
    next: AuthFlow,
    action: AuthAction,
) -> bool {
    exists|session: CryptoManager, res: Result<InitializationOutcome, CryptoError>|
        {
            &&& #[trigger] session.initialized_as(
                res,
                user.id,
                password,
                text_view(stored.verifier),
                stored.metadata,
                env,
                now,
            )
            &&& match res {
                Err(e) => finishes_with(
                    next,
                    action,
                    AuthFailure::Stage {
                        stage: crypto_stage(is_registration),
                        cause: Cause::Crypto(e@),
                    },
                ),
                Ok(outcome) => if outcome.verifier_to_store is None && outcome.metadata_to_store
                    is None {
                    succeeds_with(next, action, session, user)
                } else {
                    &&& next matches AuthFlow::StoringCredentials { is_registration: r, crypto: c, user: u }
                    &&& r == is_registration
                    &&& c == session
                    &&& u@ == user
                    &&& action matches AuthAction::StoreCredentials { user_id, outcome: o }
                    &&& user_id@ == user.id
                    &&& o == outcome
                },
            }
        }
}

/// Whether `next` and `action` are what the attempt `flow` comes to on
/// `event`. An event that the state does not wait for ends the attempt.
pub open spec fn step_holds(
    flow: AuthFlow,
    event: AuthEvent,
    next: AuthFlow,
    action: AuthAction,
) -> bool {
    match (flow, event) {
        (AuthFlow::Start(request), AuthEvent::Begin) => match request.user_manager {
            None => finishes_with(next, action, AuthFailure::UserManagerUnavailable),
            Some(registry) => if request.is_registration {
                registration_outcome(registry, request.username@, request.password@, next, action)
            } else {
                login_outcome(
                    registry,
                    request.username@,
                    request.password@,
                    AuthStage::Login,
                    false,
                    next,
                    action,
                )
            },
        },
        (
            AuthFlow::SavingRegistry { username, password, user_manager },
            AuthEvent::RegistrySaved(saved),
        ) => match saved {
            Ok(_) => login_outcome(
                user_manager,
                username@,
                password@,
                AuthStage::AuthenticationAfterRegistration,
                true,
                next,
                action,
            ),
            Err(detail) => finishes_with(
                next,
                action,
                AuthFailure::Stage { stage: AuthStage::Registration, cause: Cause::Io(detail@) },
            ),
        },
        (
            AuthFlow::ReadingCredentials { password, is_registration, user },
            AuthEvent::CredentialsRead { stored, env, now },
        ) => initialization_outcome(
            password@,
            is_registration,
            user@,
            stored,
            env,
            now,
            next,
            action,
        ),
        (
            AuthFlow::ReadingCredentials { password, is_registration, user },
            AuthEvent::CredentialsUnreadable(detail),
        ) => finishes_with(
            next,
            action,
            AuthFailure::Stage { stage: crypto_stage(is_registration), cause: Cause::Io(detail@) },
        ),
        (
            AuthFlow::StoringCredentials { is_registration, crypto, user },
            AuthEvent::CredentialsStored(stored),
        ) => match stored {
            Ok(_) => succeeds_with(next, action, crypto, user@),
            Err(detail) => finishes_with(
                next,
                action,
                AuthFailure::Stage {
                    stage: crypto_stage(is_registration),
                    cause: Cause::Io(detail@),
                },
            ),
        },
        _ => finishes_with(next, action, AuthFailure::ProcessFailed),
    }
}

fn fail(stage: AuthStage, cause: AuthCause) -> (r: (AuthFlow, AuthAction))
    ensures
        finishes_with(r.0, r.1, AuthFailure::Stage { stage: stage, cause: cause@ }),
{
    (AuthFlow::Done, AuthAction::Finish(AuthResult::Error(AuthError::Stage { stage, cause })))
}

fn crypto_stage_of(is_registration: bool) -> (r: AuthStage)
    ensures
        r == crypto_stage(is_registration),
{
    if is_registration {
        AuthStage::CryptoInitialization
    } else {
        AuthStage::Authentication
    }
}

fn log_in(
    registry: &UserManager,
    username: &str,
    password: String,
    stage: AuthStage,
    is_registration: bool,
) -> (r: (AuthFlow, AuthAction))
    ensures
        login_outcome(*registry, username@, password@, stage, is_registration, r.0, r.1),
{
    match registry.authenticate(username, password.as_str()) {
        Err(e) => fail(stage, AuthCause::Account(e)),
        Ok(user) => {
            let user_id = user.id.clone();
            (
                AuthFlow::ReadingCredentials { password, is_registration, user },
                AuthAction::ReadCredentials { user_id },
            )
        },
    }
}

impl AuthFlow {
    /// An attempt that has not begun.
    pub fn new(request: AuthRequest) -> (r: AuthFlow)
        ensures
            r == AuthFlow::Start(request),
    {
        AuthFlow::Start(request)
    }

    /// Takes the attempt one step on: from the state and what the caller
    /// reports to the next state and what the caller is to do.
    pub fn step(self, event: AuthEvent) -> (r: (AuthFlow, AuthAction))
        ensures
            step_holds(self, event, r.0, r.1),
    {
        match (self, event) {
            (AuthFlow::Start(request), AuthEvent::Begin) => {
                let AuthRequest { username, password, is_registration, user_manager } = request;
                match user_manager {
                    None => (
                        AuthFlow::Done,
                        AuthAction::Finish(AuthResult::Error(AuthError::UserManagerUnavailable)),
                    ),
                    Some(registry) => {
                        if is_registration {
                            let ghost before = registry;
                            let mut registry = registry;
                            let res = registry.create_user(username.clone(), password.as_str());
                            let r = match res {
                                Err(e) => fail(AuthStage::Registration, AuthCause::Account(e)),
                                Ok(_) => (
                                    AuthFlow::SavingRegistry {
                                        username,
                                        password,
                                        user_manager: registry,
                                    },
                                    AuthAction::SaveRegistry,
                                ),
                            };
                            assert(registration_outcome(before, username@, password@, r.0, r.1))
                                by {
                                assert(before.created(registry, res, username@, password@));
                            }
                            r
                        } else {
                            log_in(&registry, username.as_str(), password, AuthStage::Login, false)
                        }
                    },
                }
            },
            (
                AuthFlow::SavingRegistry { username, password, user_manager },
                AuthEvent::RegistrySaved(saved),
            ) => match saved {
                Ok(_) => log_in(
                    &user_manager,
                    username.as_str(),
                    password,
                    AuthStage::AuthenticationAfterRegistration,
                    true,
                ),
                Err(detail) => fail(AuthStage::Registration, AuthCause::Io(detail)),
            },
            (
                AuthFlow::ReadingCredentials { password, is_registration, user },
                AuthEvent::CredentialsRead { stored, env, now },
            ) => {
                let mut crypto = CryptoManager::new();
                let res = crypto.initialize_for_user(
                    user.id.as_str(),
                    password.as_str(),
                    stored,
                    &env,
                    now,
                );
                match res {
                    Err(e) => {
                        let r = fail(crypto_stage_of(is_registration), AuthCause::Crypto(e));
                        assert(initialization_outcome(
                            password@,
                            is_registration,
                            user@,
                            stored,
                            env,
                            now,
                            r.0,
                            r.1,
                        )) by {
                            assert(crypto.initialized_as(
                                res,
                                user@.id,
                                password@,
                                text_view(stored.verifier),
                                stored.metadata,
                                env,
                                now,
                            ));
                        }
                        r
                    },
                    Ok(outcome) => {
                        let r = if outcome.verifier_to_store.is_none()
                            && outcome.metadata_to_store.is_none() {
                            (AuthFlow::Done, AuthAction::Finish(AuthResult::Success(crypto, user)))
                        } else {
                            let user_id = user.id.clone();
                            (
                                AuthFlow::StoringCredentials { is_registration, crypto, user },
                                AuthAction::StoreCredentials { user_id, outcome },
                            )
                        };
                        assert(initialization_outcome(
                            password@,
                            is_registration,
                            user@,
                            stored,
                            env,
                            now,
                            r.0,
                            r.1,
                        )) by {
                            assert(crypto.initialized_as(
                                res,
                                user@.id,
                                password@,
                                text_view(stored.verifier),
                                stored.metadata,
                                env,
                                now,
                            ));
                        }
                        r
                    },
                }
            },
            (
                AuthFlow::ReadingCredentials { password, is_registration, user },
                AuthEvent::CredentialsUnreadable(detail),
            ) => fail(crypto_stage_of(is_registration), AuthCause::Io(detail)),
            (
                AuthFlow::StoringCredentials { is_registration, crypto, user },
                AuthEvent::CredentialsStored(stored),
            ) => match stored {
                Ok(_) => (AuthFlow::Done, AuthAction::Finish(AuthResult::Success(crypto, user))),
                Err(detail) => fail(crypto_stage_of(is_registration), AuthCause::Io(detail)),
            },
            _ => (AuthFlow::Done, AuthAction::Finish(AuthResult::Error(AuthError::ProcessFailed))),
        }
    }
}

} // verus!
