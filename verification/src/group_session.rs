//! Group messaging: the outbound hash-ratchet session and its inbound
//! counterpart.
//!
//! One sender ratchet is broadcast to many receivers.  Each encryption
//! derives a message key at the current index and advances the chain one
//! step by one-way hashing, so the chain can never be rewound from derived
//! state.  An inbound session knows the ratchet as of a first index and can
//! only ever move forward from it.
//!
//! Both session types mirror two observations of the engine state in plain
//! fields: the ratchet position (the next message index for the outbound
//! session, the first known index for the inbound one) and the immutable
//! session identifier.

use vstd::prelude::*;

use vodozemac::megolm::GroupSession as EngineGroupSession;
use vodozemac::megolm::InboundGroupSession as EngineInboundSession;
use vodozemac::megolm::MegolmMessage;
use vodozemac::megolm::SessionConfig as MegolmSessionConfig;

use crate::errors::megolm_decryption_error_convert;
use crate::errors::pickle_error_convert;
use crate::errors::session_key_decode_error_convert;
use crate::errors::MegolmDecryptionError;
use crate::errors::PickleError;
use crate::errors::SessionKeyDecodeError;

verus! {

#[verifier::external_type_specification]
#[verifier::external_body]
pub struct ExEngineGroupSession(EngineGroupSession);

#[verifier::external_type_specification]
#[verifier::external_body]
pub struct ExEngineInboundSession(EngineInboundSession);

#[verifier::external_type_specification]
#[verifier::external_body]
pub struct ExMegolmMessage(MegolmMessage);

#[verifier::external_type_specification]
#[verifier::external_body]
pub struct ExMegolmSessionConfig(MegolmSessionConfig);

#[verifier::external_type_specification]
#[verifier::external_body]
pub struct ExSessionKey(vodozemac::megolm::SessionKey);

#[verifier::external_type_specification]
#[verifier::external_body]
pub struct ExExportedSessionKey(vodozemac::megolm::ExportedSessionKey);

/// The ratchet index embedded in a group message envelope, or nothing
/// when the string is not a well-formed base64 envelope.
pub uninterp spec fn megolm_message_index(s: Seq<char>) -> Option<u32>;

/// The starting index carried by a well-formed, correctly signed
/// session-key export, or nothing when the string is not one.
pub uninterp spec fn session_key_first_index(s: Seq<char>) -> Option<u32>;

/// The starting index carried by a well-formed exported ratchet snapshot,
/// or nothing when the string is not one.
pub uninterp spec fn exported_key_first_index(s: Seq<char>) -> Option<u32>;

/// Whether a persisted outbound group session pickle decrypts and
/// deserializes under a 32-byte wrapping key.
pub uninterp spec fn group_unpickles(pickle: Seq<char>, key: Seq<u8>) -> bool;

/// Whether a persisted inbound group session pickle decrypts and
/// deserializes under a 32-byte wrapping key.
pub uninterp spec fn inbound_unpickles(pickle: Seq<char>, key: Seq<u8>) -> bool;

/// An outbound group session: one sender's hash ratchet plus the signing
/// key bound to it.
///
/// The `index` field mirrors the ratchet position of the engine state:
/// it is initialized from the engine and advanced exactly when the
/// engine's ratchet advances.  The `session_id` field mirrors the
/// engine's immutable identifier.
pub struct GroupSession {
    pub(crate) inner: EngineGroupSession,
    index: u32,
    session_id: String,
}

/// An inbound group session: the sender's ratchet as of a first known
/// index, plus the sender's verification public key.
///
/// The `first_index` field mirrors the engine's first known index and the
/// `session_id` field its identifier; neither ever changes over the
/// session's life.
pub struct InboundGroupSession {
    pub(crate) inner: EngineInboundSession,
    first_index: u32,
    session_id: String,
}

/// Relies on SessionConfig::version_1: the protocol configuration every
/// group session of this library uses.
#[verifier::external_body]
fn megolm_config_v1() -> (r: MegolmSessionConfig) {
    MegolmSessionConfig::version_1()
}

/// Relies on GroupSession::new: a fresh outbound session with a fresh
/// signing keypair and its hash ratchet at index 0.
#[verifier::external_body]
fn group_new_inner(config: MegolmSessionConfig) -> (r: EngineGroupSession) {
    EngineGroupSession::new(config)
}

/// Relies on GroupSession::session_id: base64 of the 32-byte public part
/// of the session's signing key, constant over the session's life.
#[verifier::external_body]
fn group_session_id_inner(g: &EngineGroupSession) -> (r: String)
    ensures
        r@.len() == 43,
{
    g.session_id()
}

/// Relies on GroupSession::encrypt and MegolmMessage::to_base64:
/// encrypting cannot fail, embeds the current ratchet index — the
/// mirrored counter — and advances the engine's ratchet one step; the
/// encoded envelope decodes back to a message carrying that index.
#[verifier::external_body]
fn group_encrypt_inner(g: &mut GroupSession, plaintext: &[u8]) -> (r: String)
    ensures
        megolm_message_index(r@) == Some(old(g).message_index_spec()),
        final(g).message_index_spec() == old(g).message_index_spec(),
        final(g).session_id_spec() == old(g).session_id_spec(),
{
    g.inner.encrypt(plaintext).to_base64()
}

/// Relies on GroupSession::session_key and SessionKey::to_base64: exports
/// the current ratchet state, the verification public key and the current
/// index — the mirrored counter — without advancing the ratchet; the
/// export decodes back as a session key carrying that index.
#[verifier::external_body]
fn group_session_key_inner(g: &GroupSession) -> (r: String)
    ensures
        session_key_first_index(r@) == Some(g.message_index_spec()),
        r@.len() > 0,
{
    g.inner.session_key().to_base64()
}

/// Relies on GroupSession::message_index: the index the next encrypted
/// message will carry.
#[verifier::external_body]
fn group_message_index_inner(g: &EngineGroupSession) -> (r: u32) {
    g.message_index()
}

/// Relies on GroupSession::pickle and GroupSessionPickle::encrypt:
/// wrapping the serialized state under a 32-byte key cannot fail.
#[verifier::external_body]
fn group_pickle_inner(g: &EngineGroupSession, key: &[u8]) -> (r: String)
    requires
        key.len() == 32,
{
    #[allow(clippy::unwrap_used)]
    g.pickle().encrypt(key.try_into().unwrap())
}

/// Relies on GroupSessionPickle::from_encrypted and
/// GroupSession::from_pickle: the restoration is a function of the pickle
/// text and the key alone, and succeeds exactly when the pickle decrypts
/// and deserializes.
#[verifier::external_body]
fn group_from_pickle_inner(pickle: &str, key: &[u8]) -> (r: Result<
    EngineGroupSession,
    PickleError,
>)
    requires
        key.len() == 32,
    ensures
        r is Ok <==> group_unpickles(pickle@, key@),
        r is Err ==> !(r->Err_0 is InvalidKeySize),
{
    #[allow(clippy::unwrap_used)]
    vodozemac::megolm::GroupSessionPickle::from_encrypted(pickle, key.try_into().unwrap())
        .map(EngineGroupSession::from_pickle)
        .map_err(pickle_error_convert)
}

/// Relies on SessionKey::from_base64 to decode the export — succeeding
/// exactly on a well-formed, correctly signed one — and on
/// InboundGroupSession::new, which cannot fail and starts at the index
/// the export carries; that first index is handed back alongside.
#[verifier::external_body]
fn inbound_new_from_b64(session_key: &str, config: MegolmSessionConfig) -> (r: Result<
    (EngineInboundSession, u32),
    SessionKeyDecodeError,
>)
    ensures
        r is Ok <==> session_key_first_index(session_key@) is Some,
        r matches Ok(t) ==> Some(t.1) == session_key_first_index(session_key@),
{
    let key = match vodozemac::megolm::SessionKey::from_base64(session_key) {
        Ok(k) => k,
        Err(e) => return Err(session_key_decode_error_convert(e)),
    };
    let s = EngineInboundSession::new(&key, config);
    let first = s.first_known_index();
    Ok((s, first))
}

/// Relies on ExportedSessionKey::from_base64 to decode the snapshot —
/// succeeding exactly on a well-formed one — and on
/// InboundGroupSession::import, which cannot fail and starts at the index
/// the snapshot carries; that first index is handed back alongside.
#[verifier::external_body]
fn inbound_import_from_b64(exported_key: &str, config: MegolmSessionConfig) -> (r: Result<
    (EngineInboundSession, u32),
    SessionKeyDecodeError,
>)
    ensures
        r is Ok <==> exported_key_first_index(exported_key@) is Some,
        r matches Ok(t) ==> Some(t.1) == exported_key_first_index(exported_key@),
{
    let key = match vodozemac::megolm::ExportedSessionKey::from_base64(exported_key) {
        Ok(k) => k,
        Err(e) => return Err(session_key_decode_error_convert(e)),
    };
    let s = EngineInboundSession::import(&key, config);
    let first = s.first_known_index();
    Ok((s, first))
}

/// Relies on InboundGroupSession::session_id: base64 of the 32-byte
/// verification public key of the sender, constant over the session's
/// life.
#[verifier::external_body]
fn inbound_session_id_inner(s: &EngineInboundSession) -> (r: String)
    ensures
        r@.len() == 43,
{
    s.session_id()
}

/// Relies on InboundGroupSession::first_known_index: the lowest message
/// index this session can ever derive a key for, constant over the
/// session's life.
#[verifier::external_body]
fn inbound_first_index_inner(s: &EngineInboundSession) -> (r: u32) {
    s.first_known_index()
}

/// Relies on MegolmMessage::from_base64 to decode the envelope and on
/// InboundGroupSession::decrypt for the outcome: the signature is
/// verified before any ratchet computation; on success the plaintext
/// comes back with the message's embedded index, which is never below
/// the mirrored first index; an index below the first known one is
/// unrecoverable and reported together with that first index.  A decode
/// failure is the only source of the decode error, and no path moves the
/// first index.
#[verifier::external_body]
fn inbound_decrypt_inner(s: &mut InboundGroupSession, message: &str) -> (r: Result<
    (Vec<u8>, u32),
    MegolmDecryptionError,
>)
    ensures
        (r is Err && r->Err_0 == MegolmDecryptionError::Decode) <==> megolm_message_index(message@) is None,
        r matches Ok(d) ==> megolm_message_index(message@) == Some(d.1) && d.1 >= old(s).first_known_index_spec(),
        r matches Err(MegolmDecryptionError::UnknownMessageIndex(first, index)) ==> first == old(s).first_known_index_spec() && index < first && megolm_message_index(message@) == Some(index),
        final(s).first_known_index_spec() == old(s).first_known_index_spec(),
        final(s).session_id_spec() == old(s).session_id_spec(),
{
    let m = match MegolmMessage::from_base64(message) {
        Ok(m) => m,
        Err(_) => return Err(MegolmDecryptionError::Decode),
    };
    s.inner.decrypt(&m).map(|d| (d.plaintext, d.message_index)).map_err(
        megolm_decryption_error_convert,
    )
}

/// Relies on InboundGroupSession::export_at and
/// ExportedSessionKey::to_base64: hands back a snapshot exactly when the
/// session has not been ratcheted beyond the given index, that is, when
/// the index is at or past the mirrored first index; the snapshot is
/// taken at the requested index, and the first index itself never moves.
#[verifier::external_body]
fn inbound_export_at_inner(s: &mut InboundGroupSession, index: u32) -> (r: Option<String>)
    ensures
        r is Some <==> index >= old(s).first_known_index_spec(),
        r matches Some(k) ==> exported_key_first_index(k@) == Some(index),
        final(s).first_known_index_spec() == old(s).first_known_index_spec(),
        final(s).session_id_spec() == old(s).session_id_spec(),
{
    s.inner.export_at(index).map(|k| k.to_base64())
}

/// Relies on InboundGroupSession::pickle and
/// InboundGroupSessionPickle::encrypt: wrapping the serialized state under
/// a 32-byte key cannot fail.
#[verifier::external_body]
fn inbound_pickle_inner(s: &EngineInboundSession, key: &[u8]) -> (r: String)
    requires
        key.len() == 32,
{
    #[allow(clippy::unwrap_used)]
    s.pickle().encrypt(key.try_into().unwrap())
}

/// Relies on InboundGroupSessionPickle::from_encrypted and
/// InboundGroupSession::from_pickle: the restoration is a function of the
/// pickle text and the key alone, and succeeds exactly when the pickle
/// decrypts and deserializes.
#[verifier::external_body]
fn inbound_from_pickle_inner(pickle: &str, key: &[u8]) -> (r: Result<
    EngineInboundSession,
    PickleError,
>)
    requires
        key.len() == 32,
    ensures
        r is Ok <==> inbound_unpickles(pickle@, key@),
        r is Err ==> !(r->Err_0 is InvalidKeySize),
{
    #[allow(clippy::unwrap_used)]
    vodozemac::megolm::InboundGroupSessionPickle::from_encrypted(pickle, key.try_into().unwrap())
        .map(EngineInboundSession::from_pickle)
        .map_err(pickle_error_convert)
}

impl GroupSession {
    /// The index the next encrypted message will carry.
    pub closed spec fn message_index_spec(&self) -> u32 {
        self.index
    }

    /// The session identifier.
    pub closed spec fn session_id_spec(&self) -> Seq<char> {
        self.session_id@
    }

    /// Create a fresh outbound session with its ratchet at index 0.
    /// Cannot fail.
    pub fn new() -> (r: Self)
        ensures
            r.message_index_spec() == 0,
            r.session_id_spec().len() == 43,
    {
        let inner = group_new_inner(megolm_config_v1());
        let session_id = group_session_id_inner(&inner);
        GroupSession { inner, index: 0u32, session_id }
    }

    /// The session identifier, as 43 characters of base64.  Every call
    /// over the session's life returns the same string.
    pub fn session_id(&self) -> (r: String)
        ensures
            r@ == self.session_id_spec(),
    {
        self.session_id.clone()
    }

    /// The index the next encrypted message will carry.  Starts at 0 and
    /// moves forward by one with every encryption.
    pub fn message_index(&self) -> (r: u32)
        ensures
            r == self.message_index_spec(),
    {
        self.index
    }

    /// Encrypt a plaintext at the current index, advancing the ratchet
    /// exactly one step.  Cannot fail; the result is a base64 group
    /// message envelope that decodes back to a message carrying the
    /// index this session stood at.
    pub fn encrypt(&mut self, plaintext: &str) -> (r: String)
        requires
            old(self).message_index_spec() < u32::MAX,
        ensures
            final(self).message_index_spec() == old(self).message_index_spec() + 1,
            megolm_message_index(r@) == Some(old(self).message_index_spec()),
            final(self).session_id_spec() == old(self).session_id_spec(),
    {
        let message = group_encrypt_inner(self, plaintext.as_bytes());
        self.index = self.index + 1;
        message
    }

    /// Export the current ratchet state, the verification public key and
    /// the current index for distribution to recipients.  Exporting does
    /// not advance the ratchet; the export is accepted by
    /// [`InboundGroupSession::new`] and carries this session's current
    /// index as the importer's first known index.
    pub fn session_key(&self) -> (r: String)
        ensures
            session_key_first_index(r@) == Some(self.message_index_spec()),
            r@.len() > 0,
    {
        group_session_key_inner(self)
    }

    /// Serialize and encrypt the session state under a wrapping key.
    ///
    /// Exactly one key size is accepted: 32 bytes.  With a key of that
    /// size, pickling cannot fail.
    pub fn pickle(&self, pickle_key: &[u8]) -> (r: Result<String, PickleError>)
        ensures
            pickle_key.len() != 32 <==> r == Err::<String, PickleError>(
                PickleError::InvalidKeySize(pickle_key.len() as usize),
            ),
            pickle_key.len() == 32 <==> r is Ok,
    {
        if pickle_key.len() != 32 {
            return Err(PickleError::InvalidKeySize(pickle_key.len()));
        }
        Ok(group_pickle_inner(&self.inner, pickle_key))
    }

    /// Restore an outbound session from encrypted, serialized state.
    ///
    /// A wrapping key of any size other than 32 bytes is rejected before
    /// the pickle is touched; under a 32-byte key, restoration succeeds
    /// exactly when the pickle decrypts and deserializes.
    pub fn from_pickle(pickle: &str, pickle_key: &[u8]) -> (r: Result<GroupSession, PickleError>)
        ensures
            pickle_key.len() != 32 <==> r == Err::<GroupSession, PickleError>(
                PickleError::InvalidKeySize(pickle_key.len() as usize),
            ),
            pickle_key.len() == 32 ==> (r is Ok <==> group_unpickles(pickle@, pickle_key@)),
    {
        if pickle_key.len() != 32 {
            return Err(PickleError::InvalidKeySize(pickle_key.len()));
        }
        match group_from_pickle_inner(pickle, pickle_key) {
            Ok(inner) => {
                let index = group_message_index_inner(&inner);
                let session_id = group_session_id_inner(&inner);
                Ok(GroupSession { inner, index, session_id })
            },
            Err(e) => Err(e),
        }
    }
}

impl InboundGroupSession {
    /// The lowest message index this session can ever decrypt.
    pub closed spec fn first_known_index_spec(&self) -> u32 {
        self.first_index
    }

    /// The session identifier.
    pub closed spec fn session_id_spec(&self) -> Seq<char> {
        self.session_id@
    }

    /// Create an inbound session from a signed session-key export, as
    /// produced by [`GroupSession::session_key`].
    ///
    /// Succeeds exactly when the export is well-formed and correctly
    /// signed; the new session's first known index is the index the
    /// export was taken at.
    pub fn new(session_key: &str) -> (r: Result<InboundGroupSession, SessionKeyDecodeError>)
        ensures
            r is Ok <==> session_key_first_index(session_key@) is Some,
            r matches Ok(s) ==> Some(s.first_known_index_spec()) == session_key_first_index(session_key@),
    {
        match inbound_new_from_b64(session_key, megolm_config_v1()) {
            Ok((inner, first_index)) => {
                let session_id = inbound_session_id_inner(&inner);
                Ok(InboundGroupSession { inner, first_index, session_id })
            },
            Err(e) => Err(e),
        }
    }

    /// Create an inbound session from an unsigned ratchet snapshot, as
    /// produced by [`InboundGroupSession::export_at`].
    ///
    /// Succeeds exactly when the snapshot is well-formed; the new
    /// session's first known index is the index the snapshot was taken
    /// at.
    pub fn import(exported_key: &str) -> (r: Result<InboundGroupSession, SessionKeyDecodeError>)
        ensures
            r is Ok <==> exported_key_first_index(exported_key@) is Some,
            r matches Ok(s) ==> Some(s.first_known_index_spec()) == exported_key_first_index(exported_key@),
    {
        match inbound_import_from_b64(exported_key, megolm_config_v1()) {
            Ok((inner, first_index)) => {
                let session_id = inbound_session_id_inner(&inner);
                Ok(InboundGroupSession { inner, first_index, session_id })
            },
            Err(e) => Err(e),
        }
    }

    /// The session identifier, as 43 characters of base64.  Every call
    /// over the session's life returns the same string.
    pub fn session_id(&self) -> (r: String)
        ensures
            r@ == self.session_id_spec(),
    {
        self.session_id.clone()
    }

    /// The lowest message index this session can ever decrypt.  Constant
    /// over the session's life.
    pub fn first_known_index(&self) -> (r: u32)
        ensures
            r == self.first_known_index_spec(),
    {
        self.first_index
    }

    /// Decrypt a group message, returning the plaintext and the index the
    /// message was encrypted at.
    ///
    /// Fails with the decode error exactly when the envelope does not
    /// parse; a bad signature or authentication code fails with the
    /// matching error before any ratchet computation; a message from
    /// strictly before the first known index never yields plaintext — the
    /// one-way chain cannot be rewound — and the unrecoverable-index
    /// error carries that first index.  Success returns the message's
    /// own embedded index, never below the first known one.  No call
    /// changes which indices the session can reach.
    pub fn decrypt(&mut self, message: &str) -> (r: Result<(Vec<u8>, u32), MegolmDecryptionError>)
        ensures
            r == Err::<(Vec<u8>, u32), MegolmDecryptionError>(MegolmDecryptionError::Decode)
                <==> megolm_message_index(message@) is None,
            r matches Ok(d) ==> megolm_message_index(message@) == Some(d.1) && d.1 >= old(self).first_known_index_spec(),
            megolm_message_index(message@) matches Some(i) && i < old(self).first_known_index_spec() ==> r is Err,
            r matches Err(MegolmDecryptionError::UnknownMessageIndex(first, index)) ==> first
                == old(self).first_known_index_spec() && index < first,
            final(self).first_known_index_spec() == old(self).first_known_index_spec(),
            final(self).session_id_spec() == old(self).session_id_spec(),
    {
        inbound_decrypt_inner(self, message)
    }

    /// Export the ratchet state at the given index, so a newly joining
    /// recipient can decrypt messages from that index on but none before
    /// it.
    ///
    /// Returns a snapshot exactly when the given index is at or past the
    /// first known one — the ratchet can always advance forward, never
    /// back.  The snapshot carries the requested index, so importing it
    /// starts there; the session's own reach is unchanged either way.
    pub fn export_at(&mut self, index: u32) -> (r: Option<String>)
        ensures
            r is Some <==> index >= old(self).first_known_index_spec(),
            r matches Some(k) ==> exported_key_first_index(k@) == Some(index),
            final(self).first_known_index_spec() == old(self).first_known_index_spec(),
            final(self).session_id_spec() == old(self).session_id_spec(),
    {
        inbound_export_at_inner(self, index)
    }

    /// Serialize and encrypt the session state under a wrapping key.
    ///
    /// Exactly one key size is accepted: 32 bytes.  With a key of that
    /// size, pickling cannot fail.
    pub fn pickle(&self, pickle_key: &[u8]) -> (r: Result<String, PickleError>)
        ensures
            pickle_key.len() != 32 <==> r == Err::<String, PickleError>(
                PickleError::InvalidKeySize(pickle_key.len() as usize),
            ),
            pickle_key.len() == 32 <==> r is Ok,
    {
        if pickle_key.len() != 32 {
            return Err(PickleError::InvalidKeySize(pickle_key.len()));
        }
        Ok(inbound_pickle_inner(&self.inner, pickle_key))
    }

    /// Restore an inbound session from encrypted, serialized state.
    ///
    /// A wrapping key of any size other than 32 bytes is rejected before
    /// the pickle is touched; under a 32-byte key, restoration succeeds
    /// exactly when the pickle decrypts and deserializes.
    pub fn from_pickle(pickle: &str, pickle_key: &[u8]) -> (r: Result<
        InboundGroupSession,
        PickleError,
    >)
        ensures
            pickle_key.len() != 32 <==> r == Err::<InboundGroupSession, PickleError>(
                PickleError::InvalidKeySize(pickle_key.len() as usize),
            ),
            pickle_key.len() == 32 ==> (r is Ok <==> inbound_unpickles(pickle@, pickle_key@)),
    {
        if pickle_key.len() != 32 {
            return Err(PickleError::InvalidKeySize(pickle_key.len()));
        }
        match inbound_from_pickle_inner(pickle, pickle_key) {
            Ok(inner) => {
                let first_index = inbound_first_index_inner(&inner);
                let session_id = inbound_session_id_inner(&inner);
                Ok(InboundGroupSession { inner, first_index, session_id })
            },
            Err(e) => Err(e),
        }
    }
}

} // verus!
