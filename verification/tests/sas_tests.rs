use olm_core::Sas;
use olm_core::SasError;

const INFO: &str = "SAS_VERIFICATION_CONTEXT";

fn exchanged_pair() -> (Sas, Sas) {
    let mut alice = Sas::new();
    let mut bob = Sas::new();
    let alice_key = alice.public_key();
    let bob_key = bob.public_key();
    alice.diffie_hellman(&bob_key).unwrap();
    bob.diffie_hellman(&alice_key).unwrap();
    (alice, bob)
}

#[test]
fn matching_macs_verify() {
    let (mut alice, mut bob) = exchanged_pair();

    let alice_mac = alice.calculate_mac("alice device keys", INFO).unwrap();
    assert_eq!(alice_mac.len(), 43);

    assert!(bob.verify_mac(&alice_mac, "alice device keys", INFO).is_ok());
}

#[test]
fn calculating_the_mac_twice_fails_with_used() {
    let (mut alice, _bob) = exchanged_pair();

    assert!(alice.calculate_mac("payload", INFO).is_ok());
    assert_eq!(
        alice.calculate_mac("payload", INFO),
        Err(SasError::Used)
    );
    assert_eq!(
        alice.calculate_mac("other payload", INFO),
        Err(SasError::Used)
    );
}

#[test]
fn a_corrupted_mac_reports_mismatch_not_a_decode_error() {
    let (mut alice, mut bob) = exchanged_pair();

    let mac = alice.calculate_mac("payload", INFO).unwrap();
    let mut chars: Vec<char> = mac.chars().collect();
    chars[10] = if chars[10] == 'x' { 'y' } else { 'x' };
    let corrupted: String = chars.into_iter().collect();

    assert_eq!(
        bob.verify_mac(&corrupted, "payload", INFO),
        Err(SasError::Mac)
    );
}

#[test]
fn a_wrong_payload_fails_the_mac_comparison() {
    let (mut alice, mut bob) = exchanged_pair();
    let mac = alice.calculate_mac("payload", INFO).unwrap();
    assert_eq!(
        bob.verify_mac(&mac, "a different payload", INFO),
        Err(SasError::Mac)
    );
}

#[test]
fn a_malformed_mac_does_not_use_up_the_comparison() {
    let (mut alice, mut bob) = exchanged_pair();
    let mac = alice.calculate_mac("payload", INFO).unwrap();

    assert_eq!(
        bob.verify_mac("&&& not base64 &&&", "payload", INFO),
        Err(SasError::InvalidBase64)
    );
    // The flow is still live: the real comparison can still happen.
    assert!(bob.verify_mac(&mac, "payload", INFO).is_ok());
}

#[test]
fn operations_before_the_exchange_fail() {
    let mut fresh = Sas::new();
    assert_eq!(
        fresh.calculate_mac("payload", INFO),
        Err(SasError::NotEstablished)
    );
    assert_eq!(
        fresh.verify_mac("AAAA", "payload", INFO),
        Err(SasError::NotEstablished)
    );
}

#[test]
fn the_exchange_commits_to_one_peer_key() {
    let mut alice = Sas::new();
    let bob = Sas::new();
    let charlie = Sas::new();
    let bob_key = bob.public_key();

    assert_eq!(
        alice.diffie_hellman("definitely not a key"),
        Err(SasError::Key)
    );
    // A malformed key does not consume the flow.
    alice.diffie_hellman(&bob_key).unwrap();
    // The same key again is idempotent.
    alice.diffie_hellman(&bob_key).unwrap();
    // A different key is a reuse of the committed exchange.
    assert_eq!(
        alice.diffie_hellman(&charlie.public_key()),
        Err(SasError::Used)
    );
}

#[test]
fn everything_after_the_comparison_fails_with_used() {
    let (mut alice, mut bob) = exchanged_pair();
    let alice_mac = alice.calculate_mac("payload", INFO).unwrap();
    let bob_key = bob.public_key();

    bob.verify_mac(&alice_mac, "payload", INFO).unwrap();

    assert_eq!(
        bob.verify_mac(&alice_mac, "payload", INFO),
        Err(SasError::Used)
    );
    assert_eq!(bob.calculate_mac("payload", INFO), Err(SasError::Used));
    assert_eq!(bob.diffie_hellman(&bob_key), Err(SasError::Used));
}

#[test]
fn public_keys_are_stable_base64() {
    let sas = Sas::new();
    let key = sas.public_key();
    assert_eq!(key.len(), 43);
    assert_eq!(sas.public_key(), key);
}

#[test]
fn a_degenerate_exchange_fails_and_consumes_the_flow() {
    // 43 'A's decode to 32 zero bytes: a valid encoding of a degenerate
    // Curve25519 point whose exchange contributes nothing.
    let zero_key = "A".repeat(43);
    let mut sas = Sas::new();
    let real_key = Sas::new().public_key();

    assert_eq!(sas.diffie_hellman(&zero_key), Err(SasError::Key));
    // The ephemeral secret was consumed; the flow is inert.
    assert_eq!(sas.diffie_hellman(&real_key), Err(SasError::Used));
    assert_eq!(sas.calculate_mac("payload", INFO), Err(SasError::Used));
}
