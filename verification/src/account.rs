//! Identity and one-time key management.
//!
//! An account owns a long-term Curve25519/Ed25519 identity, a pool of
//! single-use one-time keys, and a fallback key, and is the root of trust
//! for establishing pairwise sessions.  Every one-time key is consumed by
//! at most one successful inbound session establishment.
//!
//! The account mirrors three observations of the engine state in plain
//! fields — the number of unpublished one-time keys, the number of stored
//! one-time keys, and whether an unpublished fallback key exists — plus
//! the two immutable identity keys in encoded form.  The trusted wrappers
//! below refresh the counters from the engine after every mutation, so
//! the contracts can speak about the pool.

use vstd::prelude::*;

use vodozemac::olm::Account as EngineAccount;
use vodozemac::olm::SessionConfig as OlmSessionConfig;

use crate::codec::b64_decoded;
use crate::codec::curve_key_from_b64;
use crate::codec::curve_key_parses;
use crate::errors::creation_error_convert;
use crate::errors::pickle_error_convert;
use crate::errors::PickleError;
use crate::errors::SessionCreationError;
use crate::errors::SessionError;
use crate::messages::decode_olm_message;
use crate::messages::olm_envelope_parses;
use crate::messages::pre_key_session_id_of;
use crate::messages::EngineMessage;
use crate::messages::OlmMessage;
use crate::session::Session;

verus! {

#[verifier::external_type_specification]
#[verifier::external_body]
pub struct ExEngineAccount(EngineAccount);

#[verifier::external_type_specification]
#[verifier::external_body]
pub struct ExOlmSessionConfig(OlmSessionConfig);

/// The engine keeps at most this many one-time keys in store; generating
/// beyond it discards the oldest stored keys.
pub const MAX_STORED_ONE_TIME_KEYS: usize = 5000;

/// Whether a persisted account pickle decrypts and deserializes under a
/// 32-byte wrapping key.
pub uninterp spec fn account_unpickles(pickle: Seq<char>, key: Seq<u8>) -> bool;

/// The base64 Ed25519 signature that the holder of the named public
/// signing key produces over a message.  Ed25519 signing is
/// deterministic, so the signature is a function of the key and the
/// message alone.
pub uninterp spec fn ed25519_signature_of(signing_key: Seq<char>, message: Seq<char>) -> Seq<
    char,
>;

/// An account: long-term identity keys, the one-time key pool, and the
/// fallback key.
pub struct Account {
    pub(crate) inner: EngineAccount,
    ed25519: String,
    curve25519: String,
    one_time_key_count: usize,
    stored_count: usize,
    fallback_count: usize,
}

/// The outcome of a successful inbound session establishment: the new
/// session, and the plaintext of the pre-key message that established it.
pub struct InboundCreationResult {
    /// The established session.
    pub session: Session,
    /// The plaintext carried by the pre-key message.
    pub plaintext: Vec<u8>,
}

/// Relies on Account::new: a fresh account with random identity keys, an
/// empty one-time-key pool and no fallback key.
#[verifier::external_body]
fn account_new_inner() -> (r: EngineAccount) {
    EngineAccount::new()
}

/// Relies on Account::ed25519_key and Ed25519PublicKey::to_base64: 43
/// characters of unpadded base64 for the 32 key bytes; the identity
/// keypair is immutable over the account's life.
#[verifier::external_body]
fn account_ed25519_inner(a: &EngineAccount) -> (r: String)
    ensures
        r@.len() == 43,
{
    a.ed25519_key().to_base64()
}

/// Relies on Account::curve25519_key and Curve25519PublicKey::to_base64:
/// 43 characters of unpadded base64 for the 32 key bytes; the identity
/// keypair is immutable over the account's life.
#[verifier::external_body]
fn account_curve25519_inner(a: &EngineAccount) -> (r: String)
    ensures
        r@.len() == 43,
{
    a.curve25519_key().to_base64()
}

/// Relies on Account::sign and Ed25519Signature::to_base64: signing is
/// deterministic and cannot fail, so the signature is a function of the
/// account's immutable signing key — mirrored in encoded form — and the
/// message; it is 64 bytes, 86 characters of unpadded base64.
#[verifier::external_body]
fn account_sign_inner(a: &Account, message: &str) -> (r: String)
    ensures
        r@ == ed25519_signature_of(a.ed25519_key_spec(), message@),
        r@.len() == 86,
{
    a.inner.sign(message).to_base64()
}

/// Relies on Account::one_time_keys, KeyId::to_base64 and
/// Curve25519PublicKey::to_base64: one pair per currently unpublished
/// one-time key — exactly as many as the mirrored counter — keyed by
/// pairwise-distinct ids; an 8-byte key id encodes to 11 characters, a
/// key to 43.
#[verifier::external_body]
fn account_one_time_keys_inner(a: &Account) -> (r: Vec<(String, String)>)
    ensures
        r@.len() == a.one_time_key_count_spec(),
        forall|i: int|
            0 <= i < r@.len() ==> (#[trigger] r@[i]).0@.len() == 11 && r@[i].1@.len() == 43,
        forall|i: int, j: int|
            0 <= i < j < r@.len() ==> (#[trigger] r@[i]).0@ != (#[trigger] r@[j]).0@,
{
    a.inner.one_time_keys().into_iter().map(|(id, key)| (id.to_base64(), key.to_base64())).collect()
}

/// Relies on Account::generate_one_time_keys: every generated key is added
/// to the unpublished map and the store, and old keys are discarded only
/// when the store would exceed its cap; refreshes the mirrored counters
/// from the engine afterwards.
#[verifier::external_body]
fn account_generate_otk_inner(a: &mut Account, count: usize)
    ensures
        old(a).stored_count_spec() + count <= MAX_STORED_ONE_TIME_KEYS ==> final(a).one_time_key_count_spec() == old(a).one_time_key_count_spec() + count && final(a).stored_count_spec() == old(a).stored_count_spec() + count,
        final(a).one_time_key_count_spec() <= old(a).one_time_key_count_spec() + count,
        final(a).fallback_count_spec() == old(a).fallback_count_spec(),
        final(a).ed25519_key_spec() == old(a).ed25519_key_spec(),
        final(a).curve25519_key_spec() == old(a).curve25519_key_spec(),
{
    a.inner.generate_one_time_keys(count);
    a.one_time_key_count = a.inner.one_time_keys().len();
    a.stored_count = a.inner.stored_one_time_key_count();
}

/// Relies on Account::fallback_key, KeyId::to_base64 and
/// Curve25519PublicKey::to_base64: one entry per currently unpublished
/// fallback key, of which there is at most one — exactly as many as the
/// mirrored counter.
#[verifier::external_body]
fn account_fallback_key_inner(a: &Account) -> (r: Vec<(String, String)>)
    ensures
        r@.len() == a.fallback_count_spec(),
        r@.len() <= 1,
        forall|i: int|
            0 <= i < r@.len() ==> (#[trigger] r@[i]).0@.len() == 11 && r@[i].1@.len() == 43,
{
    a.inner.fallback_key().into_iter().map(|(id, key)| (id.to_base64(), key.to_base64())).collect()
}

/// Relies on Account::generate_fallback_key: afterwards an unpublished
/// fallback key exists, the demoted previous one is retained, and the
/// one-time-key pool is untouched; refreshes the mirrored counter from
/// the engine afterwards.
#[verifier::external_body]
fn account_generate_fallback_inner(a: &mut Account)
    ensures
        final(a).fallback_count_spec() == 1,
        final(a).one_time_key_count_spec() == old(a).one_time_key_count_spec(),
        final(a).stored_count_spec() == old(a).stored_count_spec(),
        final(a).ed25519_key_spec() == old(a).ed25519_key_spec(),
        final(a).curve25519_key_spec() == old(a).curve25519_key_spec(),
{
    a.inner.generate_fallback_key();
    a.fallback_count = a.inner.fallback_key().len();
}

/// Relies on Account::mark_keys_as_published: clears the unpublished flag
/// on every one-time key and on the fallback key without deleting any
/// stored key; refreshes the mirrored counters from the engine afterwards.
#[verifier::external_body]
fn account_mark_published_inner(a: &mut Account)
    ensures
        final(a).one_time_key_count_spec() == 0,
        final(a).fallback_count_spec() == 0,
        final(a).stored_count_spec() == old(a).stored_count_spec(),
        final(a).ed25519_key_spec() == old(a).ed25519_key_spec(),
        final(a).curve25519_key_spec() == old(a).curve25519_key_spec(),
{
    a.inner.mark_keys_as_published();
    a.one_time_key_count = a.inner.one_time_keys().len();
    a.fallback_count = a.inner.fallback_key().len();
}

/// Relies on SessionConfig::version_1: the protocol configuration every
/// session of this library uses.
#[verifier::external_body]
fn olm_config_v1() -> (r: OlmSessionConfig) {
    OlmSessionConfig::version_1()
}

/// Relies on Account::create_outbound_session: fails only when the key
/// agreement produces a non-contributory shared secret.
#[verifier::external_body]
fn account_create_outbound_inner(
    a: &EngineAccount,
    config: OlmSessionConfig,
    identity_key: vodozemac::Curve25519PublicKey,
    one_time_key: vodozemac::Curve25519PublicKey,
) -> (r: Option<vodozemac::olm::Session>)
{
    a.create_outbound_session(config, identity_key, one_time_key).ok()
}

/// Relies on Account::create_inbound_session: the consumed one-time key
/// is removed only after the handshake message decrypts, so the account
/// is unchanged on failure; consumption never grows the pool and never
/// touches the fallback slot; refreshes the mirrored counters from the
/// engine on success.
#[verifier::external_body]
fn account_create_inbound_inner(
    a: &mut Account,
    config: OlmSessionConfig,
    identity_key: &vodozemac::Curve25519PublicKey,
    message: &vodozemac::olm::PreKeyMessage,
) -> (r: Result<(vodozemac::olm::Session, Vec<u8>), SessionCreationError>)
    ensures
        r is Err ==> *final(a) == *old(a),
        r is Err ==> !(r->Err_0 is InvalidMessageType),
        r is Ok ==> final(a).one_time_key_count_spec() <= old(a).one_time_key_count_spec() && final(a).stored_count_spec() <= old(a).stored_count_spec(),
        final(a).fallback_count_spec() == old(a).fallback_count_spec(),
        final(a).ed25519_key_spec() == old(a).ed25519_key_spec(),
        final(a).curve25519_key_spec() == old(a).curve25519_key_spec(),
{
    match a.inner.create_inbound_session(config, *identity_key, message) {
        Ok(res) => {
            a.one_time_key_count = a.inner.one_time_keys().len();
            a.stored_count = a.inner.stored_one_time_key_count();
            Ok((res.session, res.plaintext))
        },
        Err(e) => Err(creation_error_convert(e)),
    }
}

/// Relies on Account::pickle and AccountPickle::encrypt: wrapping the
/// serialized state under a 32-byte key cannot fail.
#[verifier::external_body]
fn account_pickle_inner(a: &EngineAccount, key: &[u8]) -> (r: String)
    requires
        key.len() == 32,
{
    #[allow(clippy::unwrap_used)]
    a.pickle().encrypt(key.try_into().unwrap())
}

/// Relies on AccountPickle::from_encrypted and Account::from_pickle: the
/// restoration is a function of the pickle text and the key alone, and
/// succeeds exactly when the pickle decrypts and deserializes.  Hands the
/// restored account back together with its observed pool counters.
#[verifier::external_body]
fn account_from_pickle_inner(pickle: &str, key: &[u8]) -> (r: Result<
    (EngineAccount, usize, usize, usize),
    PickleError,
>)
    requires
        key.len() == 32,
    ensures
        r is Ok <==> account_unpickles(pickle@, key@),
        r is Err ==> !(r->Err_0 is InvalidKeySize),
        r matches Ok(t) ==> t.3 <= 1,
{
    #[allow(clippy::unwrap_used)]
    vodozemac::olm::AccountPickle::from_encrypted(pickle, key.try_into().unwrap())
        .map(vodozemac::olm::Account::from_pickle)
        .map(|a| {
            let otk = a.one_time_keys().len();
            let stored = a.stored_one_time_key_count();
            let fallback = a.fallback_key().len();
            (a, otk, stored, fallback)
        })
        .map_err(pickle_error_convert)
}

impl Account {
    /// The base64 form of the immutable Ed25519 identity key.
    pub closed spec fn ed25519_key_spec(&self) -> Seq<char> {
        self.ed25519@
    }

    /// The base64 form of the immutable Curve25519 identity key.
    pub closed spec fn curve25519_key_spec(&self) -> Seq<char> {
        self.curve25519@
    }

    /// The number of currently unpublished one-time keys.
    pub closed spec fn one_time_key_count_spec(&self) -> usize {
        self.one_time_key_count
    }

    /// The number of one-time keys held in store, published or not.
    pub closed spec fn stored_count_spec(&self) -> usize {
        self.stored_count
    }

    /// 1 when an unpublished fallback key exists, 0 otherwise.
    pub closed spec fn fallback_count_spec(&self) -> usize {
        self.fallback_count
    }

    /// Create a new account with a fresh identity keypair, an empty
    /// one-time-key pool and no fallback key.  Cannot fail.
    pub fn new() -> (r: Self)
        ensures
            r.one_time_key_count_spec() == 0,
            r.stored_count_spec() == 0,
            r.fallback_count_spec() == 0,
            r.ed25519_key_spec().len() == 43,
            r.curve25519_key_spec().len() == 43,
    {
        let inner = account_new_inner();
        let ed25519 = account_ed25519_inner(&inner);
        let curve25519 = account_curve25519_inner(&inner);
        Account {
            inner,
            ed25519,
            curve25519,
            one_time_key_count: 0,
            stored_count: 0,
            fallback_count: 0,
        }
    }

    /// The public Ed25519 signing key, as 43 characters of base64.  Every
    /// call over the account's life returns the same string.
    pub fn ed25519_key(&self) -> (r: String)
        ensures
            r@ == self.ed25519_key_spec(),
    {
        self.ed25519.clone()
    }

    /// The public Curve25519 encryption key, as 43 characters of base64.
    /// Every call over the account's life returns the same string.
    pub fn curve25519_key(&self) -> (r: String)
        ensures
            r@ == self.curve25519_key_spec(),
    {
        self.curve25519.clone()
    }

    /// Sign a message with the identity signing key.  Cannot fail, and is
    /// deterministic: the signature is a function of the account's
    /// signing key and the message alone, as 86 characters of base64.
    pub fn sign(&self, message: &str) -> (r: String)
        ensures
            r@ == ed25519_signature_of(self.ed25519_key_spec(), message@),
            r@.len() == 86,
    {
        account_sign_inner(self, message)
    }

    /// The currently unpublished one-time keys, as pairs of a key id and
    /// the public key, both base64: exactly as many as the account's
    /// unpublished pool holds, with pairwise-distinct ids.
    pub fn one_time_keys(&self) -> (r: Vec<(String, String)>)
        ensures
            r@.len() == self.one_time_key_count_spec(),
            forall|i: int|
                0 <= i < r@.len() ==> (#[trigger] r@[i]).0@.len() == 11 && r@[i].1@.len() == 43,
            forall|i: int, j: int|
                0 <= i < j < r@.len() ==> (#[trigger] r@[i]).0@ != (#[trigger] r@[j]).0@,
    {
        account_one_time_keys_inner(self)
    }

    /// Append `count` new unpublished one-time keys with fresh unique ids.
    ///
    /// Below the engine's storage cap the unpublished pool grows by
    /// exactly `count`; beyond it the oldest stored keys are discarded to
    /// make room.  The fallback slot and the identity keys are untouched.
    pub fn generate_one_time_keys(&mut self, count: usize)
        ensures
            old(self).stored_count_spec() + count <= MAX_STORED_ONE_TIME_KEYS ==> final(self).one_time_key_count_spec() == old(self).one_time_key_count_spec() + count && final(self).stored_count_spec() == old(self).stored_count_spec() + count,
            final(self).one_time_key_count_spec() <= old(self).one_time_key_count_spec() + count,
            final(self).fallback_count_spec() == old(self).fallback_count_spec(),
            final(self).ed25519_key_spec() == old(self).ed25519_key_spec(),
            final(self).curve25519_key_spec() == old(self).curve25519_key_spec(),
    {
        account_generate_otk_inner(self, count);
    }

    /// The currently unpublished fallback key, if any, as at most one pair
    /// of a key id and the public key, both base64.  The result is empty
    /// exactly when no unpublished fallback key exists.
    pub fn fallback_key(&self) -> (r: Vec<(String, String)>)
        ensures
            r@.len() == self.fallback_count_spec(),
            r@.len() <= 1,
            forall|i: int|
                0 <= i < r@.len() ==> (#[trigger] r@[i]).0@.len() == 11 && r@[i].1@.len() == 43,
    {
        account_fallback_key_inner(self)
    }

    /// Create a new fallback key, demoting the current one to the retained
    /// previous slot instead of discarding it.  Afterwards an unpublished
    /// fallback key exists; the one-time-key pool and the identity keys
    /// are untouched.
    pub fn generate_fallback_key(&mut self)
        ensures
            final(self).fallback_count_spec() == 1,
            final(self).one_time_key_count_spec() == old(self).one_time_key_count_spec(),
            final(self).stored_count_spec() == old(self).stored_count_spec(),
            final(self).ed25519_key_spec() == old(self).ed25519_key_spec(),
            final(self).curve25519_key_spec() == old(self).curve25519_key_spec(),
    {
        account_generate_fallback_inner(self);
    }

    /// Mark all currently unpublished one-time keys and the fallback key
    /// as published: afterwards both unpublished pools are empty, yet no
    /// stored key is deleted — each remains usable for inbound session
    /// creation until consumed.
    pub fn mark_keys_as_published(&mut self)
        ensures
            final(self).one_time_key_count_spec() == 0,
            final(self).fallback_count_spec() == 0,
            final(self).stored_count_spec() == old(self).stored_count_spec(),
            final(self).ed25519_key_spec() == old(self).ed25519_key_spec(),
            final(self).curve25519_key_spec() == old(self).curve25519_key_spec(),
    {
        account_mark_published_inner(self);
    }

    /// Establish an outbound session against a peer's identity key and one
    /// of its one-time keys, both supplied as base64.
    ///
    /// Fails with a key error exactly when one of the keys is malformed,
    /// and with a creation error when the key agreement is degenerate.
    pub fn create_outbound_session(&self, identity_key: &str, one_time_key: &str) -> (r: Result<
        Session,
        SessionError,
    >)
        ensures
            (!curve_key_parses(identity_key@) || !curve_key_parses(one_time_key@)) <==> r
                == Err::<Session, SessionError>(SessionError::Key),
            r is Err ==> (r->Err_0 == SessionError::Key || r->Err_0 == SessionError::Creation(
                SessionCreationError::NonContributoryKey,
            )),
    {
        let identity = match curve_key_from_b64(identity_key) {
            Some(k) => k,
            None => {
                return Err(SessionError::Key);
            },
        };
        let one_time = match curve_key_from_b64(one_time_key) {
            Some(k) => k,
            None => {
                return Err(SessionError::Key);
            },
        };
        match account_create_outbound_inner(&self.inner, olm_config_v1(), identity, one_time) {
            Some(inner) => Ok(Session::from_inner(inner)),
            None => Err(SessionError::Creation(SessionCreationError::NonContributoryKey)),
        }
    }

    /// Establish an inbound session from a peer's pre-key message,
    /// consuming the referenced one-time key.
    ///
    /// A message whose type tag is not the pre-key tag fails with the
    /// invalid-message-type creation error before anything else; a
    /// malformed identity key fails with the key error, exactly then; an
    /// envelope that does not parse fails with the decode error, exactly
    /// then; an unknown or already-consumed one-time key, a mismatched
    /// identity key, or a failed handshake check fail with the matching
    /// creation error.  No failure changes the account; success only
    /// consumes from the pool, and the new session carries the session
    /// identifier embedded in the message.
    pub fn create_inbound_session(&mut self, identity_key: &str, message: &OlmMessage) -> (r:
        Result<InboundCreationResult, SessionError>)
        ensures
            message.message_type != 0 <==> r == Err::<InboundCreationResult, SessionError>(
                SessionError::Creation(SessionCreationError::InvalidMessageType),
            ),
            (message.message_type == 0 && !curve_key_parses(identity_key@)) <==> r == Err::<
                InboundCreationResult,
                SessionError,
            >(SessionError::Key),
            r == Err::<InboundCreationResult, SessionError>(SessionError::Decode) <==> (
            message.message_type == 0 && curve_key_parses(identity_key@) && !olm_envelope_parses(
                *message,
            )),
            r is Err ==> *final(self) == *old(self),
            r matches Ok(res) ==> res.session.session_id_spec() == pre_key_session_id_of(
                b64_decoded(message.ciphertext@)->Some_0,
            ),
            r is Ok ==> final(self).one_time_key_count_spec() <= old(self).one_time_key_count_spec() && final(self).stored_count_spec() <= old(self).stored_count_spec(),
            final(self).fallback_count_spec() == old(self).fallback_count_spec(),
            final(self).ed25519_key_spec() == old(self).ed25519_key_spec(),
            final(self).curve25519_key_spec() == old(self).curve25519_key_spec(),
    {
        if message.message_type != 0 {
            return Err(SessionError::Creation(SessionCreationError::InvalidMessageType));
        }
        let identity = match curve_key_from_b64(identity_key) {
            Some(k) => k,
            None => {
                return Err(SessionError::Key);
            },
        };
        let (pre_key, embedded_id) = match decode_olm_message(message) {
            Ok(EngineMessage::PreKey(m, id)) => (m, id),
            Ok(EngineMessage::Normal(_)) => {
                return Err(SessionError::Decode);
            },
            Err(e) => {
                return Err(e);
            },
        };
        match account_create_inbound_inner(self, olm_config_v1(), &identity, &pre_key) {
            Ok((inner, plaintext)) => {
                let session = Session::from_parts(inner, embedded_id);
                Ok(InboundCreationResult { session, plaintext })
            },
            Err(e) => Err(SessionError::Creation(e)),
        }
    }

    /// Serialize and encrypt the account state under a wrapping key.
    ///
    /// Exactly one key size is accepted: 32 bytes.  With a key of that
    /// size, pickling cannot fail.
    pub fn pickle(&self, pickle_key: &[u8]) -> (r: Result<String, PickleError>)
        ensures
            pickle_key.len() != 32 <==> r == Err::<String, PickleError>(
                PickleError::InvalidKeySize(pickle_key.len() as usize),
            ),
            pickle_key.len() == 32 <==> r is Ok,
    {
        if pickle_key.len() != 32 {
            return Err(PickleError::InvalidKeySize(pickle_key.len()));
        }
        Ok(account_pickle_inner(&self.inner, pickle_key))
    }

    /// Restore an account from encrypted, serialized state.
    ///
    /// A wrapping key of any size other than 32 bytes is rejected before
    /// the pickle is touched; under a 32-byte key, restoration succeeds
    /// exactly when the pickle decrypts and deserializes.
    pub fn from_pickle(pickle: &str, pickle_key: &[u8]) -> (r: Result<Account, PickleError>)
        ensures
            pickle_key.len() != 32 <==> r == Err::<Account, PickleError>(
                PickleError::InvalidKeySize(pickle_key.len() as usize),
            ),
            pickle_key.len() == 32 ==> (r is Ok <==> account_unpickles(pickle@, pickle_key@)),
            r matches Ok(a) ==> a.fallback_count_spec() <= 1,
    {
        if pickle_key.len() != 32 {
            return Err(PickleError::InvalidKeySize(pickle_key.len()));
        }
        match account_from_pickle_inner(pickle, pickle_key) {
            Ok((inner, one_time_key_count, stored_count, fallback_count)) => {
                let ed25519 = account_ed25519_inner(&inner);
                let curve25519 = account_curve25519_inner(&inner);
                Ok(
                    Account {
                        inner,
                        ed25519,
                        curve25519,
                        one_time_key_count,
                        stored_count,
                        fallback_count,
                    },
                )
            },
            Err(e) => Err(e),
        }
    }
}

} // verus!
