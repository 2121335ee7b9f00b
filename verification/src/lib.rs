//! A verified wrapper around the vodozemac cryptographic session engine.
//!
//! The crate exposes the Olm double-ratchet protocol for pairwise messaging,
//! the Megolm hash-ratchet protocol for group messaging, identity and one-time
//! key management through [`Account`], and the SAS device-verification state
//! machine.  All cryptographic primitives are performed by the vodozemac
//! crate behind a small set of trusted declarations; the state machines,
//! input validation, and error classification around them are verified.

pub mod account;
pub mod codec;
pub mod errors;
pub mod group_session;
pub mod messages;
pub mod sas;
pub mod session;

pub use account::Account;
pub use account::InboundCreationResult;
pub use errors::MegolmDecryptionError;
pub use errors::OlmDecryptionError;
pub use errors::PickleError;
pub use errors::SasError;
pub use errors::SessionCreationError;
pub use errors::SessionError;
pub use errors::SessionKeyDecodeError;
pub use group_session::GroupSession;
pub use group_session::InboundGroupSession;
pub use messages::OlmMessage;
pub use sas::Sas;
pub use sas::SasPhase;
pub use session::Session;
