//! The pairwise double-ratchet session.
//!
//! A session is established from an [`crate::Account`] and a peer's keys and
//! then encrypts and decrypts a bidirectional message stream.  Until the
//! first reply from the peer has been decrypted, outgoing messages are
//! pre-key messages that carry the handshake data; afterwards they are
//! normal messages.

use vstd::prelude::*;

use vodozemac::olm::Session as RatchetSession;

use crate::codec::b64_decoded;
use crate::errors::olm_decryption_error_convert;
use crate::errors::pickle_error_convert;
use crate::errors::OlmDecryptionError;
use crate::errors::PickleError;
use crate::errors::SessionError;
use crate::messages::decode_olm_message;
use crate::messages::encode_olm_message;
use crate::messages::olm_envelope_parses;
use crate::messages::pre_key_session_id_of;
use crate::messages::EngineMessage;
use crate::messages::OlmMessage;

verus! {

#[verifier::external_type_specification]
#[verifier::external_body]
pub struct ExRatchetSession(RatchetSession);

/// Whether a persisted session pickle decrypts and deserializes under a
/// 32-byte wrapping key.
pub uninterp spec fn session_unpickles(pickle: Seq<char>, key: Seq<u8>) -> bool;

/// A pairwise double-ratchet session.
///
/// The `session_id` field mirrors the engine's session identifier, which
/// is derived from the immutable handshake transcript and never changes
/// over the session's life.
pub struct Session {
    pub(crate) inner: RatchetSession,
    session_id: String,
}

/// Relies on Session::session_id: base64 of the 32-byte SHA-256 digest of
/// the handshake transcript this session was established from, constant
/// over the session's life.
#[verifier::external_body]
fn session_id_inner(s: &RatchetSession) -> (r: String)
    ensures
        r@.len() == 43,
{
    s.session_id()
}

/// Relies on Session::encrypt, and on OlmMessage::to_parts to take the
/// result apart: the type tag of an encrypted message is 0 (pre-key) or 1
/// (normal); encryption fails only on a non-contributory key exchange.
#[verifier::external_body]
fn session_encrypt_inner(s: &mut RatchetSession, plaintext: &[u8]) -> (r: Option<
    (usize, Vec<u8>),
>)
    ensures
        r matches Some(parts) ==> parts.0 <= 1,
{
    s.encrypt(plaintext).ok().map(|m| m.to_parts())
}

/// Relies on Session::decrypt, with the pre-key variant of the message:
/// returns the plaintext, or the failure mode of the authenticated
/// decryption.  Chain state is assigned only after the cryptographic
/// checks succeed, so the session is unchanged on failure.
#[verifier::external_body]
fn session_decrypt_pre_key_inner(
    s: &mut RatchetSession,
    m: &vodozemac::olm::PreKeyMessage,
) -> (r: Result<Vec<u8>, OlmDecryptionError>)
    ensures
        r is Err ==> *final(s) == *old(s),
{
    s.decrypt(&vodozemac::olm::OlmMessage::PreKey(m.clone())).map_err(
        olm_decryption_error_convert,
    )
}

/// Relies on Session::decrypt, with the normal variant of the message:
/// returns the plaintext, or the failure mode of the authenticated
/// decryption.  Chain state is assigned only after the cryptographic
/// checks succeed, so the session is unchanged on failure.
#[verifier::external_body]
fn session_decrypt_normal_inner(
    s: &mut RatchetSession,
    m: &vodozemac::olm::Message,
) -> (r: Result<Vec<u8>, OlmDecryptionError>)
    ensures
        r is Err ==> *final(s) == *old(s),
{
    s.decrypt(&vodozemac::olm::OlmMessage::Normal(m.clone())).map_err(
        olm_decryption_error_convert,
    )
}

/// Relies on Session::pickle and SessionPickle::encrypt: wrapping the
/// serialized state under a 32-byte key cannot fail.
#[verifier::external_body]
fn session_pickle_inner(s: &RatchetSession, key: &[u8]) -> (r: String)
    requires
        key.len() == 32,
{
    #[allow(clippy::unwrap_used)]
    s.pickle().encrypt(key.try_into().unwrap())
}

/// Relies on SessionPickle::from_encrypted and Session::from_pickle: the
/// restoration is a function of the pickle text and the key alone, and
/// succeeds exactly when the pickle decrypts and deserializes.
#[verifier::external_body]
fn session_from_pickle_inner(pickle: &str, key: &[u8]) -> (r: Result<
    RatchetSession,
    PickleError,
>)
    requires
        key.len() == 32,
    ensures
        r is Ok <==> session_unpickles(pickle@, key@),
        r is Err ==> !(r->Err_0 is InvalidKeySize),
{
    #[allow(clippy::unwrap_used)]
    vodozemac::olm::SessionPickle::from_encrypted(pickle, key.try_into().unwrap())
        .map(RatchetSession::from_pickle)
        .map_err(pickle_error_convert)
}

impl Session {
    /// The session identifier: the base64 digest of the handshake
    /// transcript this session was established from.
    pub closed spec fn session_id_spec(&self) -> Seq<char> {
        self.session_id@
    }

    /// Wrap an engine session, capturing its immutable identifier.
    pub(crate) fn from_inner(inner: RatchetSession) -> (r: Session)
        ensures
            r.session_id_spec().len() == 43,
    {
        let session_id = session_id_inner(&inner);
        Session { inner, session_id }
    }

    /// Wrap an engine session under the session identifier of the
    /// handshake material it was created from.  The engine derives its
    /// own identifier from exactly that material, so the two agree.
    pub(crate) fn from_parts(inner: RatchetSession, session_id: String) -> (r: Session)
        ensures
            r.session_id_spec() == session_id@,
    {
        Session { inner, session_id }
    }

    /// The globally unique session identifier, derived deterministically
    /// from the handshake transcript, as 43 characters of base64.  Every
    /// call over the session's life returns the same string.
    pub fn session_id(&self) -> (r: String)
        ensures
            r@ == self.session_id_spec(),
    {
        self.session_id.clone()
    }

    /// Report whether this session was produced by exactly the handshake a
    /// candidate pre-key message carries, so that a caller can deduplicate
    /// retried handshakes instead of creating redundant sessions.
    ///
    /// True exactly when the envelope is a well-formed pre-key message
    /// whose embedded handshake digest equals this session's identifier.
    pub fn session_matches(&self, message: &OlmMessage) -> (r: bool)
        ensures
            r == (olm_envelope_parses(*message) && message.message_type == 0
                && pre_key_session_id_of(b64_decoded(message.ciphertext@)->Some_0)
                == self.session_id_spec()),
    {
        if message.message_type != 0 {
            return false;
        }
        match decode_olm_message(message) {
            Ok(EngineMessage::PreKey(_, their_id)) => their_id == self.session_id,
            Ok(EngineMessage::Normal(_)) => false,
            Err(_) => false,
        }
    }

    /// Encrypt a plaintext, advancing the sending chain by one step.
    ///
    /// The result is a pre-key message until the session has decrypted a
    /// first reply, and a normal message afterwards; either way its body
    /// decodes back to the engine's message bytes.  Encryption fails only
    /// when the ratchet cannot be advanced securely, and never changes
    /// the session identifier.
    pub fn encrypt(&mut self, plaintext: &str) -> (r: Result<OlmMessage, SessionError>)
        ensures
            r is Ok ==> r->Ok_0.message_type <= 1,
            r is Ok ==> b64_decoded(r->Ok_0.ciphertext@) is Some,
            r is Err ==> r->Err_0 == SessionError::Encryption,
            final(self).session_id_spec() == old(self).session_id_spec(),
    {
        match session_encrypt_inner(&mut self.inner, plaintext.as_bytes()) {
            Some(parts) => Ok(encode_olm_message(parts.0, parts.1.as_slice())),
            None => Err(SessionError::Encryption),
        }
    }

    /// Decrypt a received message.
    ///
    /// Fails with the decode error exactly when the envelope does not
    /// parse; a failed authentication, a consumed message key, or an
    /// exceeded skip window fail with the matching decryption error.  No
    /// failure changes the session's state: chain keys advance only after
    /// the cryptographic checks succeed.
    pub fn decrypt(&mut self, message: &OlmMessage) -> (r: Result<Vec<u8>, SessionError>)
        ensures
            r == Err::<Vec<u8>, SessionError>(SessionError::Decode) <==> !olm_envelope_parses(
                *message,
            ),
            r is Err ==> (r->Err_0 == SessionError::Decode || r->Err_0 is Decryption),
            r is Err ==> *final(self) == *old(self),
            final(self).session_id_spec() == old(self).session_id_spec(),
    {
        let engine_message = match decode_olm_message(message) {
            Ok(m) => m,
            Err(e) => {
                return Err(e);
            },
        };
        let decrypted = match engine_message {
            EngineMessage::PreKey(m, _) => session_decrypt_pre_key_inner(&mut self.inner, &m),
            EngineMessage::Normal(m) => session_decrypt_normal_inner(&mut self.inner, &m),
        };
        match decrypted {
            Ok(plaintext) => Ok(plaintext),
            Err(e) => Err(SessionError::Decryption(e)),
        }
    }

    /// Serialize and encrypt the session state under a wrapping key.
    ///
    /// Exactly one key size is accepted: 32 bytes.  With a key of that
    /// size, pickling cannot fail.
    pub fn pickle(&self, pickle_key: &[u8]) -> (r: Result<String, PickleError>)
        ensures
            pickle_key.len() != 32 <==> r == Err::<String, PickleError>(
                PickleError::InvalidKeySize(pickle_key.len() as usize),
            ),
            pickle_key.len() == 32 <==> r is Ok,
    {
        if pickle_key.len() != 32 {
            return Err(PickleError::InvalidKeySize(pickle_key.len()));
        }
        Ok(session_pickle_inner(&self.inner, pickle_key))
    }

    /// Restore a session from encrypted, serialized state.
    ///
    /// A wrapping key of any size other than 32 bytes is rejected before
    /// the pickle is touched; under a 32-byte key, restoration succeeds
    /// exactly when the pickle decrypts and deserializes.
    pub fn from_pickle(pickle: &str, pickle_key: &[u8]) -> (r: Result<Session, PickleError>)
        ensures
            pickle_key.len() != 32 <==> r == Err::<Session, PickleError>(
                PickleError::InvalidKeySize(pickle_key.len() as usize),
            ),
            pickle_key.len() == 32 ==> (r is Ok <==> session_unpickles(pickle@, pickle_key@)),
    {
        if pickle_key.len() != 32 {
            return Err(PickleError::InvalidKeySize(pickle_key.len()));
        }
        match session_from_pickle_inner(pickle, pickle_key) {
            Ok(inner) => Ok(Session::from_inner(inner)),
            Err(e) => Err(e),
        }
    }
}

} // verus!
