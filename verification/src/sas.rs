//! The short-authentication-string device-verification flow.
//!
//! A SAS instance is a one-shot state machine.  It starts with a fresh
//! ephemeral keypair, commits to a peer key through exactly one
//! Diffie-Hellman exchange, derives a MAC over an agreed context exactly
//! once, and compares a peer's MAC exactly once; after the comparison the
//! instance is permanently inert and every further operation fails with
//! the used-error.

use vstd::prelude::*;

use vodozemac::sas::EstablishedSas;
use vodozemac::sas::Sas as EngineSas;

use crate::codec::curve_key_from_b64;
use crate::codec::curve_key_parses;
use crate::errors::SasError;

verus! {

#[verifier::external_type_specification]
#[verifier::external_body]
pub struct ExEngineSas(EngineSas);

#[verifier::external_type_specification]
#[verifier::external_body]
pub struct ExEstablishedSas(EstablishedSas);

#[verifier::external_type_specification]
#[verifier::external_body]
pub struct ExSasMac(vodozemac::sas::Mac);

/// Whether a string is the base64 form of a MAC tag.
pub uninterp spec fn mac_parses(s: Seq<char>) -> bool;

/// Relies on Sas::new: a fresh ephemeral Curve25519 keypair.
#[verifier::external_body]
fn sas_new_inner() -> (r: EngineSas) {
    EngineSas::new()
}

/// Relies on Sas::public_key and Curve25519PublicKey::to_base64: 43
/// characters of unpadded base64 for the 32 key bytes.
#[verifier::external_body]
fn sas_public_key_inner(s: &EngineSas) -> (r: String)
    ensures
        r@.len() == 43,
{
    s.public_key().to_base64()
}

/// Relies on Sas::diffie_hellman: consumes the ephemeral secret and
/// establishes the shared secret, unless the exchange is
/// non-contributory.
#[verifier::external_body]
fn sas_diffie_hellman_inner(
    s: EngineSas,
    their_key: vodozemac::Curve25519PublicKey,
) -> (r: Option<EstablishedSas>)
{
    s.diffie_hellman(their_key).ok()
}

/// Relies on EstablishedSas::calculate_mac and Mac::to_base64: derives a
/// 32-byte MAC over the input with the info string as context; cannot
/// fail, and encodes to 43 characters of base64.
#[verifier::external_body]
fn established_calculate_mac_inner(s: &EstablishedSas, input: &str, info: &str) -> (r: String)
    ensures
        r@.len() == 43,
{
    s.calculate_mac(input, info).to_base64()
}

/// Relies on Mac::from_base64: succeeds exactly when the input is valid
/// base64.
#[verifier::external_body]
fn mac_from_b64_inner(s: &str) -> (r: Option<vodozemac::sas::Mac>)
    ensures
        r is Some <==> mac_parses(s@),
{
    vodozemac::sas::Mac::from_base64(s).ok()
}

/// Relies on EstablishedSas::verify_mac: recomputes the MAC over the input
/// and info and compares in constant time; reports only whether the two
/// tags agree.
#[verifier::external_body]
fn established_verify_mac_inner(
    s: &EstablishedSas,
    input: &str,
    info: &str,
    tag: &vodozemac::sas::Mac,
) -> (r: bool)
{
    s.verify_mac(input, info, tag).is_ok()
}

/// The phase a SAS instance is in.
pub enum SasPhase {
    /// Fresh: the ephemeral keypair exists, no peer key has been seen.
    Created,
    /// The one committed Diffie-Hellman exchange has happened.
    KeysExchanged,
    /// Our MAC has been calculated; it cannot be calculated again.
    MacCalculated,
    /// The MAC comparison has happened; the instance is inert.
    Done,
}

enum SasState {
    Created(EngineSas),
    KeysExchanged(EstablishedSas, String),
    MacCalculated(EstablishedSas, String),
    Done,
}

/// A one-shot short-authentication-string verification flow.
pub struct Sas {
    state: SasState,
    public_key: String,
}

impl Sas {
    /// The phase the flow is in.
    pub closed spec fn phase(&self) -> SasPhase {
        match self.state {
            SasState::Created(_) => SasPhase::Created,
            SasState::KeysExchanged(_, _) => SasPhase::KeysExchanged,
            SasState::MacCalculated(_, _) => SasPhase::MacCalculated,
            SasState::Done => SasPhase::Done,
        }
    }

    /// The peer key the flow has committed to, once keys are exchanged.
    pub closed spec fn their_key_spec(&self) -> Option<Seq<char>> {
        match self.state {
            SasState::KeysExchanged(_, k) => Some(k@),
            SasState::MacCalculated(_, k) => Some(k@),
            _ => None,
        }
    }

    /// Our ephemeral public key.
    pub closed spec fn public_key_spec(&self) -> Seq<char> {
        self.public_key@
    }

    /// Create a fresh verification flow with a new ephemeral keypair.
    pub fn new() -> (r: Sas)
        ensures
            r.phase() is Created,
            r.their_key_spec() is None,
            r.public_key_spec().len() == 43,
    {
        let inner = sas_new_inner();
        let public_key = sas_public_key_inner(&inner);
        Sas { state: SasState::Created(inner), public_key }
    }

    /// Our ephemeral public key, as 43 characters of base64.  Stable over
    /// the whole life of the flow.
    pub fn public_key(&self) -> (r: String)
        ensures
            r@ == self.public_key_spec(),
    {
        self.public_key.clone()
    }

    /// Commit to a peer public key by performing the one Diffie-Hellman
    /// exchange of the flow.
    ///
    /// A malformed key is rejected with a key error and the flow stays
    /// fresh; a non-contributory exchange also fails with a key error but
    /// consumes the flow.  Calling again with the same key is idempotent;
    /// calling with a different key after the first exchange, or after
    /// the flow was used up, fails with the used-error.
    pub fn diffie_hellman(&mut self, their_public_key: &str) -> (r: Result<(), SasError>)
        ensures
            final(self).public_key_spec() == old(self).public_key_spec(),
            old(self).phase() is Created && !curve_key_parses(their_public_key@) ==> r == Err::<
                (),
                SasError,
            >(SasError::Key) && final(self).phase() is Created,
            old(self).phase() is Created && r is Ok ==> final(self).phase() is KeysExchanged
                && final(self).their_key_spec() == Some(their_public_key@),
            old(self).phase() is Created && r is Err ==> r == Err::<(), SasError>(SasError::Key),
            (old(self).phase() is KeysExchanged || old(self).phase() is MacCalculated) ==> (
            if old(self).their_key_spec() == Some(their_public_key@) {
                r is Ok
            } else {
                r == Err::<(), SasError>(SasError::Used)
            }) && final(self).phase() == old(self).phase() && final(self).their_key_spec() == old(self).their_key_spec(),
            old(self).phase() is Done ==> r == Err::<(), SasError>(SasError::Used) && final(self).phase() is Done,
    {
        match &self.state {
            SasState::Created(_) => {
                let key = match curve_key_from_b64(their_public_key) {
                    Some(k) => k,
                    None => {
                        return Err(SasError::Key);
                    },
                };
                let mut taken = SasState::Done;
                core::mem::swap(&mut taken, &mut self.state);
                match taken {
                    SasState::Created(inner) => match sas_diffie_hellman_inner(inner, key) {
                        Some(established) => {
                            self.state = SasState::KeysExchanged(
                                established,
                                their_public_key.to_owned(),
                            );
                            Ok(())
                        },
                        None => {
                            // The ephemeral secret is consumed by the
                            // exchange; a degenerate exchange leaves the
                            // flow inert.
                            self.state = SasState::Done;
                            Err(SasError::Key)
                        },
                    },
                    _ => {
                        proof {
                            assert(false);
                        }
                        Err(SasError::Used)
                    },
                }
            },
            SasState::KeysExchanged(_, committed) => {
                let candidate = their_public_key.to_owned();
                if candidate == *committed {
                    Ok(())
                } else {
                    Err(SasError::Used)
                }
            },
            SasState::MacCalculated(_, committed) => {
                let candidate = their_public_key.to_owned();
                if candidate == *committed {
                    Ok(())
                } else {
                    Err(SasError::Used)
                }
            },
            SasState::Done => Err(SasError::Used),
        }
    }

    /// Derive the MAC over the given input with the info string as agreed
    /// context.  Succeeds exactly once, directly after the key exchange.
    ///
    /// Before the exchange there is no shared secret to derive from;
    /// after the first success, or once the flow is inert, the call fails
    /// with the used-error.
    pub fn calculate_mac(&mut self, input: &str, info: &str) -> (r: Result<String, SasError>)
        ensures
            final(self).public_key_spec() == old(self).public_key_spec(),
            old(self).phase() is Created ==> r == Err::<String, SasError>(SasError::NotEstablished)
                && final(self).phase() is Created,
            old(self).phase() is KeysExchanged ==> r is Ok && r->Ok_0@.len() == 43 && final(self).phase() is MacCalculated && final(self).their_key_spec() == old(self).their_key_spec(),
            old(self).phase() is MacCalculated ==> r == Err::<String, SasError>(SasError::Used)
                && final(self).phase() is MacCalculated && final(self).their_key_spec() == old(self).their_key_spec(),
            old(self).phase() is Done ==> r == Err::<String, SasError>(SasError::Used) && final(self).phase() is Done,
    {
        match &self.state {
            SasState::Created(_) => Err(SasError::NotEstablished),
            SasState::KeysExchanged(established, _) => {
                let mac = established_calculate_mac_inner(established, input, info);
                let mut taken = SasState::Done;
                core::mem::swap(&mut taken, &mut self.state);
                match taken {
                    SasState::KeysExchanged(established, committed) => {
                        self.state = SasState::MacCalculated(established, committed);
                        Ok(mac)
                    },
                    _ => {
                        proof {
                            assert(false);
                        }
                        Err(SasError::Used)
                    },
                }
            },
            SasState::MacCalculated(_, _) => Err(SasError::Used),
            SasState::Done => Err(SasError::Used),
        }
    }

    /// Compare a peer's MAC against our own derivation over the same input
    /// and info.  The comparison happens exactly once: whether the tags
    /// agree or not, the flow is inert afterwards.
    ///
    /// A MAC that is not valid base64 is rejected without counting as the
    /// comparison; a mismatch is reported as a MAC failure, distinct from
    /// the malformed-input failure.
    pub fn verify_mac(&mut self, their_mac: &str, input: &str, info: &str) -> (r: Result<
        (),
        SasError,
    >)
        ensures
            final(self).public_key_spec() == old(self).public_key_spec(),
            old(self).phase() is Created ==> r == Err::<(), SasError>(SasError::NotEstablished)
                && final(self).phase() is Created,
            (old(self).phase() is KeysExchanged || old(self).phase() is MacCalculated)
                && !mac_parses(their_mac@) ==> r == Err::<(), SasError>(SasError::InvalidBase64)
                && final(self).phase() == old(self).phase() && final(self).their_key_spec() == old(self).their_key_spec(),
            (old(self).phase() is KeysExchanged || old(self).phase() is MacCalculated)
                && mac_parses(their_mac@) ==> (r is Ok || r == Err::<(), SasError>(SasError::Mac))
                && final(self).phase() is Done,
            old(self).phase() is Done ==> r == Err::<(), SasError>(SasError::Used) && final(self).phase() is Done,
    {
        match &self.state {
            SasState::Created(_) => Err(SasError::NotEstablished),
            SasState::KeysExchanged(established, _) => {
                let tag = match mac_from_b64_inner(their_mac) {
                    Some(t) => t,
                    None => {
                        return Err(SasError::InvalidBase64);
                    },
                };
                let matches_tag = established_verify_mac_inner(established, input, info, &tag);
                self.state = SasState::Done;
                if matches_tag {
                    Ok(())
                } else {
                    Err(SasError::Mac)
                }
            },
            SasState::MacCalculated(established, _) => {
                let tag = match mac_from_b64_inner(their_mac) {
                    Some(t) => t,
                    None => {
                        return Err(SasError::InvalidBase64);
                    },
                };
                let matches_tag = established_verify_mac_inner(established, input, info, &tag);
                self.state = SasState::Done;
                if matches_tag {
                    Ok(())
                } else {
                    Err(SasError::Mac)
                }
            },
            SasState::Done => Err(SasError::Used),
        }
    }
}

} // verus!
