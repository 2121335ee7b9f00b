//! The pairwise message envelope.
//!
//! A message is a tagged pair of a type and a ciphertext: type 0 is a
//! pre-key message that carries the handshake data needed to establish a
//! session, type 1 is a normal message of an established session.  The
//! ciphertext travels as base64 text.

use vstd::prelude::*;

use crate::codec::b64_decode;
use crate::codec::b64_decoded;
use crate::codec::b64_encode;
use crate::errors::SessionError;

verus! {

/// A pairwise message as it travels over the wire: a message type tag and
/// a base64-encoded body.
#[derive(Clone, Debug)]
pub struct OlmMessage {
    /// 0 for a pre-key message carrying handshake data, 1 for a normal
    /// message of an established session.
    pub message_type: usize,
    /// The base64-encoded message body.
    pub ciphertext: String,
}

impl OlmMessage {
    /// Assemble an envelope from its two wire parts.
    pub fn new(message_type: usize, ciphertext: &str) -> (r: Self)
        ensures
            r.message_type == message_type,
            r.ciphertext@ == ciphertext@,
    {
        Self { message_type, ciphertext: ciphertext.to_owned() }
    }
}

#[verifier::external_type_specification]
#[verifier::external_body]
pub struct ExPreKeyMessage(vodozemac::olm::PreKeyMessage);

#[verifier::external_type_specification]
#[verifier::external_body]
pub struct ExNormalMessage(vodozemac::olm::Message);

/// Whether a byte sequence is a well-formed pre-key message.
pub uninterp spec fn pre_key_bytes_parse(b: Seq<u8>) -> bool;

/// Whether a byte sequence is a well-formed normal message.
pub uninterp spec fn normal_bytes_parse(b: Seq<u8>) -> bool;

/// The session identifier embedded in a well-formed pre-key message: the
/// base64 digest of the handshake transcript the message carries.
pub uninterp spec fn pre_key_session_id_of(b: Seq<u8>) -> Seq<char>;

/// Whether a wire envelope decodes to a well-formed engine message: the
/// type tag must be 0 or 1, the body valid base64, and the bytes a
/// well-formed message of the tagged kind.
pub open spec fn olm_envelope_parses(msg: OlmMessage) -> bool {
    match b64_decoded(msg.ciphertext@) {
        Some(b) => (msg.message_type == 0 && pre_key_bytes_parse(b)) || (msg.message_type == 1
            && normal_bytes_parse(b)),
        None => false,
    }
}

/// A decoded pairwise message, ready to be handed to the ratchet engine.
/// A pre-key message carries its embedded session identifier along.
pub(crate) enum EngineMessage {
    /// A pre-key message, its handshake data, and its session identifier.
    PreKey(vodozemac::olm::PreKeyMessage, String),
    /// A normal message of an established session.
    Normal(vodozemac::olm::Message),
}

/// Relies on PreKeyMessage::from_bytes, which succeeds exactly on
/// well-formed pre-key message bytes, and on PreKeyMessage::session_id,
/// the base64 SHA-256 digest of the embedded handshake keys.
#[verifier::external_body]
pub(crate) fn pre_key_from_bytes(bytes: &[u8]) -> (r: Option<
    (vodozemac::olm::PreKeyMessage, String),
>)
    ensures
        r is Some <==> pre_key_bytes_parse(bytes@),
        r matches Some(p) ==> p.1@ == pre_key_session_id_of(bytes@) && p.1@.len() == 43,
{
    vodozemac::olm::PreKeyMessage::from_bytes(bytes).ok().map(|m| {
        let id = m.session_id();
        (m, id)
    })
}

/// Relies on Message::from_bytes: succeeds exactly on well-formed normal
/// message bytes.
#[verifier::external_body]
pub(crate) fn normal_from_bytes(bytes: &[u8]) -> (r: Option<vodozemac::olm::Message>)
    ensures
        r is Some <==> normal_bytes_parse(bytes@),
{
    vodozemac::olm::Message::from_bytes(bytes).ok()
}

/// Decode a wire envelope into an engine message.
///
/// Fails, always with the decode error, exactly when the envelope does not
/// parse: the type tag is not 0 or 1, the body is not valid base64, or the
/// decoded bytes are not a well-formed message of the tagged kind.
pub(crate) fn decode_olm_message(msg: &OlmMessage) -> (r: Result<EngineMessage, SessionError>)
    ensures
        r is Ok <==> olm_envelope_parses(*msg),
        r is Err <==> r == Err::<EngineMessage, SessionError>(SessionError::Decode),
        r matches Ok(m) ==> (m is PreKey <==> msg.message_type == 0),
        r matches Ok(EngineMessage::PreKey(_, id)) ==> b64_decoded(msg.ciphertext@) is Some && id@
            == pre_key_session_id_of(b64_decoded(msg.ciphertext@)->Some_0),
{
    let bytes = match b64_decode(msg.ciphertext.as_str()) {
        Some(bytes) => bytes,
        None => {
            return Err(SessionError::Decode);
        },
    };
    if msg.message_type == 0 {
        match pre_key_from_bytes(bytes.as_slice()) {
            Some((m, id)) => Ok(EngineMessage::PreKey(m, id)),
            None => Err(SessionError::Decode),
        }
    } else if msg.message_type == 1 {
        match normal_from_bytes(bytes.as_slice()) {
            Some(m) => Ok(EngineMessage::Normal(m)),
            None => Err(SessionError::Decode),
        }
    } else {
        Err(SessionError::Decode)
    }
}

/// Assemble a wire envelope from a type tag and raw message bytes.
///
/// The body of the envelope is the base64 encoding of the bytes, so
/// decoding it yields the same bytes again.
pub(crate) fn encode_olm_message(message_type: usize, bytes: &[u8]) -> (r: OlmMessage)
    ensures
        r.message_type == message_type,
        b64_decoded(r.ciphertext@) == Some(bytes@),
{
    let ciphertext = b64_encode(bytes);
    OlmMessage { message_type, ciphertext }
}

} // verus!
