//! The closed sets of failures, one per component.

use crate::text::{join_strings, join_texts, texts};
use vstd::prelude::*;

verus! {

/// Why a registration, or a new password, was turned down before anything
/// changed.
#[derive(Debug, Clone, Copy, PartialEq, Eq, Structural)]
pub enum ValidationError {
    /// The username is empty or holds only white space.
    EmptyUsername,
    /// The username has fewer than three characters.
    UsernameTooShort,
    /// The username has more than fifty characters.
    UsernameTooLong,
    /// The username holds a character that is neither alphanumeric nor `_` nor `-`.
    InvalidUsernameCharacters,
    /// The password has fewer than six characters.
    PasswordTooShort,
    /// The password has more than 128 characters.
    PasswordTooLong,
    /// Another identity has this username, compared without regard to case.
    DuplicateUsername,
}

/// A failure of the account registry.
#[derive(Debug, Clone, Copy, PartialEq, Eq, Structural)]
pub enum AccountError {
    /// The input was turned down by validation.
    Validation(ValidationError),
    /// Login failed. The same value stands for an unknown username, a wrong
    /// password and a stored verifier that cannot be read.
    InvalidCredentials,
    /// No identity has the username.
    UserNotFound,
    /// The current password does not verify.
    IncorrectPassword,
    /// The stored verifier is not a password hash string.
    MalformedVerifier,
    /// A new verifier could not be computed.
    HashingFailed,
    /// The id drawn for a new identity is the id of another one.
    IdCollision,
}

/// A failure of the crypto session.
#[derive(Debug, PartialEq, Eq)]
pub enum CryptoError {
    /// The session holds no key.
    NotInitialized,
    /// The blob is shorter than a nonce.
    InvalidFormat,
    /// The cipher rejected the blob: wrong key or altered data.
    AuthenticationFailure,
    /// The cipher refused to encrypt.
    EncryptionFailed,
    /// The stored verifier is not a password hash string.
    MalformedVerifier,
    /// The password does not verify against the stored verifier.
    WrongPassword,
    /// The stored security metadata could not be read.
    MalformedMetadata,
    /// A critical component of the hardware fingerprint differs from the
    /// stored one. The notes name the components that changed.
    CriticalHardwareChange(Vec<String>),
    /// The key could not be derived.
    KeyDerivationFailed,
    /// A new verifier could not be computed.
    HashingFailed,
    /// No verifier is stored for the user.
    UserConfigurationNotFound,
    /// The current password does not verify.
    IncorrectCurrentPassword,
}

/// A [`CryptoError`] with its notes as texts.
pub enum CryptoFailure {
    NotInitialized,
    InvalidFormat,
    AuthenticationFailure,
    EncryptionFailed,
    MalformedVerifier,
    WrongPassword,
    MalformedMetadata,
    CriticalHardwareChange(Seq<Seq<char>>),
    KeyDerivationFailed,
    HashingFailed,
    UserConfigurationNotFound,
    IncorrectCurrentPassword,
}

impl View for CryptoError {
    type V = CryptoFailure;

    open spec fn view(&self) -> CryptoFailure {
        match self {
            CryptoError::NotInitialized => CryptoFailure::NotInitialized,
            CryptoError::InvalidFormat => CryptoFailure::InvalidFormat,
            CryptoError::AuthenticationFailure => CryptoFailure::AuthenticationFailure,
            CryptoError::EncryptionFailed => CryptoFailure::EncryptionFailed,
            CryptoError::MalformedVerifier => CryptoFailure::MalformedVerifier,
            CryptoError::WrongPassword => CryptoFailure::WrongPassword,
            CryptoError::MalformedMetadata => CryptoFailure::MalformedMetadata,
            CryptoError::CriticalHardwareChange(notes) => CryptoFailure::CriticalHardwareChange(
                texts(notes@),
            ),
            CryptoError::KeyDerivationFailed => CryptoFailure::KeyDerivationFailed,
            CryptoError::HashingFailed => CryptoFailure::HashingFailed,
            CryptoError::UserConfigurationNotFound => CryptoFailure::UserConfigurationNotFound,
            CryptoError::IncorrectCurrentPassword => CryptoFailure::IncorrectCurrentPassword,
        }
    }
}

/// A failure of the note store.
#[derive(Debug, PartialEq, Eq)]
pub enum StorageError {
    /// The session could not encrypt or decrypt.
    Crypto(CryptoError),
    /// The decrypted file does not hold a collection of notes.
    MalformedPayload,
}

/// A [`StorageError`] over texts.
pub enum StorageFailure {
    Crypto(CryptoFailure),
    MalformedPayload,
}

impl View for StorageError {
    type V = StorageFailure;

    open spec fn view(&self) -> StorageFailure {
        match self {
            StorageError::Crypto(e) => StorageFailure::Crypto(e@),
            StorageError::MalformedPayload => StorageFailure::MalformedPayload,
        }
    }
}

impl StorageFailure {
    /// The sentence that tells the user what failed.
    pub open spec fn message_text(self) -> Seq<char> {
        match self {
            StorageFailure::Crypto(e) => e.message_text(),
            StorageFailure::MalformedPayload => "Stored notes are malformed"@,
        }
    }
}

impl ValidationError {
    /// The sentence that tells the user what is wrong.
    pub open spec fn message_text(self) -> Seq<char> {
        match self {
            ValidationError::EmptyUsername => "Username cannot be empty"@,
            ValidationError::UsernameTooShort => "Username must be at least 3 characters long"@,
            ValidationError::UsernameTooLong => "Username must be less than 50 characters"@,
            ValidationError::InvalidUsernameCharacters => "Username can only contain letters, numbers, underscores, and hyphens"@,
            ValidationError::PasswordTooShort => "Password must be at least 6 characters long"@,
            ValidationError::PasswordTooLong => "Password must be less than 128 characters"@,
            ValidationError::DuplicateUsername => "Username already exists"@,
        }
    }

    /// The sentence that tells the user what is wrong.
    pub fn message(&self) -> (r: String)
        ensures
            r@ == self.message_text(),
    {
        match self {
            ValidationError::EmptyUsername => "Username cannot be empty".to_owned(),
            ValidationError::UsernameTooShort => "Username must be at least 3 characters long".to_owned(),
            ValidationError::UsernameTooLong => "Username must be less than 50 characters".to_owned(),
            ValidationError::InvalidUsernameCharacters => "Username can only contain letters, numbers, underscores, and hyphens".to_owned(),
            ValidationError::PasswordTooShort => "Password must be at least 6 characters long".to_owned(),
            ValidationError::PasswordTooLong => "Password must be less than 128 characters".to_owned(),
            ValidationError::DuplicateUsername => "Username already exists".to_owned(),
        }
    }
}

impl AccountError {
    /// The sentence that tells the user what failed. A failed login has one
    /// sentence for every cause.
    pub open spec fn message_text(self) -> Seq<char> {
        match self {
            AccountError::Validation(fault) => fault.message_text(),
            AccountError::InvalidCredentials => "Invalid username or password"@,
            AccountError::UserNotFound => "User not found"@,
            AccountError::IncorrectPassword => "Current password is incorrect"@,
            AccountError::MalformedVerifier => "Failed to parse password hash"@,
            AccountError::HashingFailed => "Failed to hash password"@,
            AccountError::IdCollision => "Failed to assign a unique id"@,
        }
    }

    /// The sentence that tells the user what failed.
    pub fn message(&self) -> (r: String)
        ensures
            r@ == self.message_text(),
    {
        match self {
            AccountError::Validation(fault) => fault.message(),
            AccountError::InvalidCredentials => "Invalid username or password".to_owned(),
            AccountError::UserNotFound => "User not found".to_owned(),
            AccountError::IncorrectPassword => "Current password is incorrect".to_owned(),
            AccountError::MalformedVerifier => "Failed to parse password hash".to_owned(),
            AccountError::HashingFailed => "Failed to hash password".to_owned(),
            AccountError::IdCollision => "Failed to assign a unique id".to_owned(),
        }
    }
}

impl CryptoFailure {
    /// The sentence that tells the user what failed. For a critical change of
    /// hardware it lists the changed components, separated by commas.
    pub open spec fn message_text(self) -> Seq<char> {
        match self {
            CryptoFailure::NotInitialized => "Cipher not initialized"@,
            CryptoFailure::InvalidFormat => "Invalid encrypted data"@,
            CryptoFailure::AuthenticationFailure => "Decryption failed"@,
            CryptoFailure::EncryptionFailed => "Encryption failed"@,
            CryptoFailure::MalformedVerifier => "Failed to parse password hash"@,
            CryptoFailure::WrongPassword => "Password verification failed"@,
            CryptoFailure::MalformedMetadata => "Failed to parse security metadata"@,
            CryptoFailure::CriticalHardwareChange(notes) => "Critical hardware components changed: "@
                + join_texts(notes, ", "@),
            CryptoFailure::KeyDerivationFailed => "Failed to derive key"@,
            CryptoFailure::HashingFailed => "Failed to hash password"@,
            CryptoFailure::UserConfigurationNotFound => "User configuration not found"@,
            CryptoFailure::IncorrectCurrentPassword => "Current password is incorrect"@,
        }
    }
}

impl CryptoError {
    /// The sentence that tells the user what failed.
    pub fn message(&self) -> (r: String)
        ensures
            r@ == self@.message_text(),
    {
        match self {
            CryptoError::NotInitialized => "Cipher not initialized".to_owned(),
            CryptoError::InvalidFormat => "Invalid encrypted data".to_owned(),
            CryptoError::AuthenticationFailure => "Decryption failed".to_owned(),
            CryptoError::EncryptionFailed => "Encryption failed".to_owned(),
            CryptoError::MalformedVerifier => "Failed to parse password hash".to_owned(),
            CryptoError::WrongPassword => "Password verification failed".to_owned(),
            CryptoError::MalformedMetadata => "Failed to parse security metadata".to_owned(),
            CryptoError::CriticalHardwareChange(notes) => {
                let mut text = "Critical hardware components changed: ".to_owned();
                text.append(join_strings(notes, ", ").as_str());
                text
            },
            CryptoError::KeyDerivationFailed => "Failed to derive key".to_owned(),
            CryptoError::HashingFailed => "Failed to hash password".to_owned(),
            CryptoError::UserConfigurationNotFound => "User configuration not found".to_owned(),
            CryptoError::IncorrectCurrentPassword => "Current password is incorrect".to_owned(),
        }
    }
}

impl StorageError {
    /// The sentence that tells the user what failed.
    pub fn message(&self) -> (r: String)
        ensures
            r@ == self@.message_text(),
    {
        match self {
            StorageError::Crypto(e) => e.message(),
            StorageError::MalformedPayload => "Stored notes are malformed".to_owned(),
        }
    }
}

} // verus!
