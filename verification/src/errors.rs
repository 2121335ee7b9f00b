//! Error categories surfaced by the library.
//!
//! Every failure is reported as a typed result; no operation panics on
//! malformed input.  The variants mirror the failure modes of the underlying
//! cryptographic engine one to one, so a caller can distinguish every
//! category it needs to react to.

use vstd::prelude::*;

use vodozemac::megolm::DecryptionError as MegolmEngineError;
use vodozemac::megolm::SessionKeyDecodeError as EngineKeyDecodeError;
use vodozemac::olm::DecryptionError as OlmEngineError;
use vodozemac::olm::SessionCreationError as EngineCreationError;
use vodozemac::PickleError as EnginePickleError;

verus! {

#[verifier::external_type_specification]
#[verifier::external_body]
pub struct ExOlmEngineError(OlmEngineError);

#[verifier::external_type_specification]
#[verifier::external_body]
pub struct ExEngineCreationError(EngineCreationError);

#[verifier::external_type_specification]
#[verifier::external_body]
pub struct ExEnginePickleError(EnginePickleError);

#[verifier::external_type_specification]
#[verifier::external_body]
pub struct ExMegolmEngineError(MegolmEngineError);

#[verifier::external_type_specification]
#[verifier::external_body]
pub struct ExEngineKeyDecodeError(EngineKeyDecodeError);

/// Failure modes of decrypting an Olm (pairwise) message.
#[derive(Clone, Copy, Debug, PartialEq, Eq, Structural)]
pub enum OlmDecryptionError {
    /// The message authentication code of the message was invalid.
    InvalidMac,
    /// The message authentication code had an unexpected length.
    InvalidMacLength,
    /// The ciphertext of the message is not padded correctly.
    InvalidPadding,
    /// A Diffie-Hellman exchange produced a non-contributory shared secret.
    NonContributoryKey,
    /// The message key for the message's chain index was already used up or
    /// discarded; replaying a consumed index fails rather than succeeding
    /// silently.
    MissingMessageKey,
    /// The message's chain index is further ahead than the bounded skip
    /// window allows.
    TooBigMessageGap,
}

/// Failure modes of establishing an inbound session from a pre-key message.
#[derive(Clone, Copy, Debug, PartialEq, Eq, Structural)]
pub enum SessionCreationError {
    /// The referenced one-time key is unknown or was already consumed.
    MissingOneTimeKey,
    /// The identity key inside the pre-key message does not match the
    /// identity key the caller supplied.
    MismatchedIdentityKey,
    /// The pre-key message was produced under a different session
    /// configuration.
    MismatchedSessionConfig,
    /// A Diffie-Hellman exchange produced a non-contributory shared secret.
    NonContributoryKey,
    /// The pre-key message embedded in the handshake failed to decrypt.
    Decryption(OlmDecryptionError),
    /// A pre-key message is needed to establish an inbound session, but
    /// another message type was supplied.
    InvalidMessageType,
}

/// Failure modes of the pairwise session operations.
#[derive(Clone, Copy, Debug, PartialEq, Eq, Structural)]
pub enum SessionError {
    /// Malformed or invalid-length public key material.
    Key,
    /// Malformed wire-format bytes that are not a valid message envelope.
    Decode,
    /// The sending ratchet could not be advanced securely.
    Encryption,
    /// Decryption of a received message failed.
    Decryption(OlmDecryptionError),
    /// The inbound handshake failed.
    Creation(SessionCreationError),
}

/// Failure modes of decrypting a Megolm (group) message.
#[derive(Clone, Copy, Debug, PartialEq, Eq, Structural)]
pub enum MegolmDecryptionError {
    /// The message envelope could not be decoded.
    Decode,
    /// The Ed25519 signature on the message was invalid.
    Signature,
    /// The message authentication code of the message was invalid.
    InvalidMac,
    /// The message authentication code had an unexpected length.
    InvalidMacLength,
    /// The ciphertext of the message is not padded correctly.
    InvalidPadding,
    /// The message index lies before the first index this session knows; a
    /// one-way hash chain cannot be rewound, so the key is unrecoverable.
    UnknownMessageIndex(u32, u32),
}

/// Failure modes of decoding an exported group-session key.
#[derive(Clone, Copy, Debug, PartialEq, Eq, Structural)]
pub enum SessionKeyDecodeError {
    /// The export used an unsupported version.
    Version,
    /// The export did not contain enough data.
    Read,
    /// The export was not valid base64.
    Base64,
    /// The signature on the export was invalid.
    Signature,
    /// The export contained an invalid public key.
    PublicKey,
}

/// Failure modes of persisting or restoring state.
#[derive(Clone, Copy, Debug, PartialEq, Eq, Structural)]
pub enum PickleError {
    /// The wrapping key has the wrong size; exactly 32 bytes are accepted.
    /// Carries the size that was supplied.
    InvalidKeySize(usize),
    /// The persisted state was not valid base64.
    Base64,
    /// The persisted state could not be decrypted with the wrapping key.
    Decryption,
    /// The decrypted state could not be deserialized.
    Serialization,
}

/// Failure modes of the SAS device-verification flow.
#[derive(Clone, Copy, Debug, PartialEq, Eq, Structural)]
pub enum SasError {
    /// A supplied MAC was not valid base64.
    InvalidBase64,
    /// Malformed public key material, or a non-contributory key exchange.
    Key,
    /// The MAC comparison failed: the two sides do not share the same secret.
    Mac,
    /// The one-shot verification flow was already used up.
    Used,
    /// The operation needs an established shared secret, but the
    /// Diffie-Hellman exchange has not happened yet.
    NotEstablished,
}

/// Relies on the shape of vodozemac's olm::DecryptionError: carries each
/// failure mode over to the library's category of the same name.
#[verifier::external_body]
pub(crate) fn olm_decryption_error_convert(e: OlmEngineError) -> (r: OlmDecryptionError)
{
    match e {
        OlmEngineError::InvalidMAC(_) => OlmDecryptionError::InvalidMac,
        OlmEngineError::InvalidMACLength(_, _) => OlmDecryptionError::InvalidMacLength,
        OlmEngineError::InvalidPadding(_) => OlmDecryptionError::InvalidPadding,
        OlmEngineError::NonContributoryKey => OlmDecryptionError::NonContributoryKey,
        OlmEngineError::MissingMessageKey(_) => OlmDecryptionError::MissingMessageKey,
        OlmEngineError::TooBigMessageGap(_, _) => OlmDecryptionError::TooBigMessageGap,
    }
}

/// Relies on the shape of vodozemac's olm::SessionCreationError: carries
/// each failure mode over to the library's category of the same name.
#[verifier::external_body]
pub(crate) fn creation_error_convert(e: EngineCreationError) -> (r: SessionCreationError)
{
    match e {
        EngineCreationError::MissingOneTimeKey(_) => SessionCreationError::MissingOneTimeKey,
        EngineCreationError::MismatchedIdentityKey(_, _) => SessionCreationError::MismatchedIdentityKey,
        EngineCreationError::MismatchedSessionConfig { .. } => SessionCreationError::MismatchedSessionConfig,
        EngineCreationError::NonContributoryKey => SessionCreationError::NonContributoryKey,
        EngineCreationError::Decryption(d) => SessionCreationError::Decryption(olm_decryption_error_convert(d)),
    }
}

/// Relies on the shape of vodozemac's PickleError: carries each failure
/// mode over to the library's category of the same name.
#[verifier::external_body]
pub(crate) fn pickle_error_convert(e: EnginePickleError) -> (r: PickleError)
{
    match e {
        EnginePickleError::Base64(_) => PickleError::Base64,
        EnginePickleError::Decryption(_) => PickleError::Decryption,
        EnginePickleError::Serialization(_) => PickleError::Serialization,
    }
}

/// Relies on the shape of vodozemac's megolm::DecryptionError: carries each
/// failure mode over to the library's category of the same name, keeping
/// the two indices of an unrecoverable-index failure.
#[verifier::external_body]
pub(crate) fn megolm_decryption_error_convert(e: MegolmEngineError) -> (r: MegolmDecryptionError)
{
    match e {
        MegolmEngineError::Signature(_) => MegolmDecryptionError::Signature,
        MegolmEngineError::InvalidMAC(_) => MegolmDecryptionError::InvalidMac,
        MegolmEngineError::InvalidMACLength(_, _) => MegolmDecryptionError::InvalidMacLength,
        MegolmEngineError::InvalidPadding(_) => MegolmDecryptionError::InvalidPadding,
        MegolmEngineError::UnknownMessageIndex(first, index) => MegolmDecryptionError::UnknownMessageIndex(first, index),
    }
}

/// Relies on the shape of vodozemac's megolm::SessionKeyDecodeError:
/// carries each failure mode over to the library's category of the same
/// name.
#[verifier::external_body]
pub(crate) fn session_key_decode_error_convert(e: EngineKeyDecodeError) -> (r: SessionKeyDecodeError)
{
    match e {
        EngineKeyDecodeError::Version(_, _) => SessionKeyDecodeError::Version,
        EngineKeyDecodeError::Read(_) => SessionKeyDecodeError::Read,
        EngineKeyDecodeError::Base64(_) => SessionKeyDecodeError::Base64,
        EngineKeyDecodeError::Signature(_) => SessionKeyDecodeError::Signature,
        EngineKeyDecodeError::PublicKey(_) => SessionKeyDecodeError::PublicKey,
    }
}

} // verus!
