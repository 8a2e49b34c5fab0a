//! Per-user, password-derived, authenticated encryption of text notes.
//!
//! The crate holds the rules of three components and proves them with Verus:
//! the account registry, the crypto session that binds a derived key to a
//! hardware fingerprint, and the note store that frames encrypted blobs.
//! Reading files, the process environment and the user interface are left to
//! the caller, which hands plain values in and persists what comes back.
//!
//! - [`user`]: the account registry.
//! - [`fingerprint`] and [`crypto`]: the hardware fingerprint and the crypto
//!   session.
//! - [`note`], [`collection`] and [`storage`]: notes, their collection and
//!   the note store.
//! - [`auth`] and [`app`]: an authentication attempt step by step, and the
//!   state of a running session.
//! - [`phc`]: the test of a password against a stored verifier.
//! - [`text`] and [`time`]: helpers over texts and instants.
//! - [`errors`]: the failures of each component.
//! - [`primitives`]: the calls into other crates, which are believed and not
//!   proved.

pub mod app;
pub mod auth;
pub mod collection;
pub mod crypto;
pub mod errors;
pub mod fingerprint;
pub mod note;
pub mod phc;
pub mod primitives;
pub mod storage;
pub mod text;
pub mod time;
pub mod user;
