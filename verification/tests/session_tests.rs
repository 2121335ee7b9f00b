use olm_core::Account;
use olm_core::OlmDecryptionError;
use olm_core::OlmMessage;
use olm_core::PickleError;
use olm_core::Session;
use olm_core::SessionCreationError;
use olm_core::SessionError;

/// Establish a pair of sessions: `peer` starts an outbound session against
/// `account`'s one-time key and sends `first_plaintext`; `account` builds
/// the inbound session from the resulting pre-key message.
fn establish(
    account: &mut Account,
    peer: &Account,
    first_plaintext: &str,
) -> (Session, Session, OlmMessage) {
    account.generate_one_time_keys(1);
    let one_time_key = account.one_time_keys()[0].1.clone();
    let mut peer_session = peer
        .create_outbound_session(&account.curve25519_key(), &one_time_key)
        .unwrap();
    let pre_key_message = peer_session.encrypt(first_plaintext).unwrap();
    assert_eq!(pre_key_message.message_type, 0);
    let result = account
        .create_inbound_session(&peer.curve25519_key(), &pre_key_message)
        .unwrap();
    assert_eq!(result.plaintext, first_plaintext.as_bytes().to_vec());
    (result.session, peer_session, pre_key_message)
}

#[test]
fn pairwise_messages_round_trip_in_both_directions() {
    let mut account = Account::new();
    let peer = Account::new();
    let (mut account_session, mut peer_session, _) = establish(&mut account, &peer, "hello");

    assert_eq!(account_session.session_id(), peer_session.session_id());

    let reply = account_session.encrypt("world").unwrap();
    assert_eq!(peer_session.decrypt(&reply).unwrap(), b"world".to_vec());

    let follow_up = peer_session.encrypt("again").unwrap();
    assert_eq!(follow_up.message_type, 1);
    assert_eq!(account_session.decrypt(&follow_up).unwrap(), b"again".to_vec());
}

#[test]
fn replayed_pre_key_message_cannot_create_a_second_session() {
    let mut account = Account::new();
    let peer = Account::new();
    let (_account_session, _peer_session, pre_key_message) =
        establish(&mut account, &peer, "hello");

    let replay = account.create_inbound_session(&peer.curve25519_key(), &pre_key_message);
    assert!(matches!(
        replay,
        Err(SessionError::Creation(SessionCreationError::MissingOneTimeKey))
    ));
}

#[test]
fn inbound_creation_rejects_wrong_message_type_and_bad_input() {
    let mut account = Account::new();
    let peer = Account::new();
    let (mut account_session, mut peer_session, _) = establish(&mut account, &peer, "hello");
    let reply = account_session.encrypt("world").unwrap();
    peer_session.decrypt(&reply).unwrap();
    let normal_message = peer_session.encrypt("now normal").unwrap();
    assert_eq!(normal_message.message_type, 1);

    let wrong_type = account.create_inbound_session(&peer.curve25519_key(), &normal_message);
    assert!(matches!(
        wrong_type,
        Err(SessionError::Creation(SessionCreationError::InvalidMessageType))
    ));

    let fake = OlmMessage::new(0, "definitely not base64!!");
    let bad_body = account.create_inbound_session(&peer.curve25519_key(), &fake);
    assert!(matches!(bad_body, Err(SessionError::Decode)));

    let pre_key = OlmMessage::new(0, "AAAA");
    let bad_key = account.create_inbound_session("not a key", &pre_key);
    assert!(matches!(bad_key, Err(SessionError::Key)));
}

#[test]
fn out_of_order_messages_decrypt_exactly_once() {
    let mut account = Account::new();
    let peer = Account::new();
    let (mut account_session, mut peer_session, _) = establish(&mut account, &peer, "start");

    let m1 = peer_session.encrypt("message one").unwrap();
    let m2 = peer_session.encrypt("message two").unwrap();
    let m3 = peer_session.encrypt("message three").unwrap();
    let m4 = peer_session.encrypt("message four").unwrap();
    let m5 = peer_session.encrypt("message five").unwrap();

    assert_eq!(account_session.decrypt(&m3).unwrap(), b"message three".to_vec());
    assert_eq!(account_session.decrypt(&m1).unwrap(), b"message one".to_vec());
    assert_eq!(account_session.decrypt(&m5).unwrap(), b"message five".to_vec());
    assert_eq!(account_session.decrypt(&m2).unwrap(), b"message two".to_vec());
    assert_eq!(account_session.decrypt(&m4).unwrap(), b"message four".to_vec());

    let replay = account_session.decrypt(&m1);
    assert!(matches!(
        replay,
        Err(SessionError::Decryption(OlmDecryptionError::MissingMessageKey))
    ));
}

#[test]
fn session_matches_identifies_its_own_handshake() {
    let mut account = Account::new();
    let peer = Account::new();
    let (account_session, mut peer_session, pre_key_message) =
        establish(&mut account, &peer, "hello");

    assert!(account_session.session_matches(&pre_key_message));
    assert!(peer_session.session_matches(&pre_key_message));

    let second = peer_session.encrypt("second").unwrap();
    assert!(account_session.session_matches(&second));

    let mut other_account = Account::new();
    let (other_session, _, _) = establish(&mut other_account, &peer, "other");
    assert!(!other_session.session_matches(&pre_key_message));

    let garbage = OlmMessage::new(0, "!!! not base64 !!!");
    assert!(!account_session.session_matches(&garbage));
}

#[test]
fn decrypt_rejects_malformed_envelopes() {
    let mut account = Account::new();
    let peer = Account::new();
    let (mut account_session, _, _) = establish(&mut account, &peer, "hello");

    let unknown_type = OlmMessage::new(2, "AAAA");
    assert!(matches!(
        account_session.decrypt(&unknown_type),
        Err(SessionError::Decode)
    ));

    let bad_base64 = OlmMessage::new(1, "not base64!!");
    assert!(matches!(
        account_session.decrypt(&bad_base64),
        Err(SessionError::Decode)
    ));

    let not_a_message = OlmMessage::new(1, "AAAA");
    assert!(account_session.decrypt(&not_a_message).is_err());
}

#[test]
fn session_pickle_round_trips() {
    let pickle_key = [3u8; 32];
    let mut account = Account::new();
    let peer = Account::new();
    let (account_session, mut peer_session, _) = establish(&mut account, &peer, "hello");

    let pickle = account_session.pickle(&pickle_key).unwrap();
    let mut restored = Session::from_pickle(&pickle, &pickle_key).unwrap();
    assert_eq!(restored.session_id(), account_session.session_id());

    let next = peer_session.encrypt("after restore").unwrap();
    assert_eq!(restored.decrypt(&next).unwrap(), b"after restore".to_vec());
}

#[test]
fn session_pickle_accepts_exactly_one_key_size() {
    let mut account = Account::new();
    let peer = Account::new();
    let (account_session, _, _) = establish(&mut account, &peer, "hello");

    assert_eq!(
        account_session.pickle(&[0u8; 7]),
        Err(PickleError::InvalidKeySize(7))
    );
    assert!(matches!(
        Session::from_pickle("whatever", &[0u8; 64]),
        Err(PickleError::InvalidKeySize(64))
    ));
    assert!(account_session.pickle(&[0u8; 32]).is_ok());
}

#[test]
fn olm_message_new_keeps_its_parts() {
    let message = OlmMessage::new(1, "Y2lwaGVydGV4dA");
    assert_eq!(message.message_type, 1);
    assert_eq!(message.ciphertext, "Y2lwaGVydGV4dA");
}

#[test]
fn a_foreign_identity_key_is_rejected_as_mismatched() {
    let mut account = Account::new();
    let peer = Account::new();
    account.generate_one_time_keys(1);
    let one_time_key = account.one_time_keys()[0].1.clone();
    let mut peer_session = peer
        .create_outbound_session(&account.curve25519_key(), &one_time_key)
        .unwrap();
    let pre_key_message = peer_session.encrypt("hello").unwrap();

    let bystander = Account::new();
    let result = account.create_inbound_session(&bystander.curve25519_key(), &pre_key_message);
    assert!(matches!(
        result,
        Err(SessionError::Creation(SessionCreationError::MismatchedIdentityKey))
    ));
}

#[test]
fn a_gap_beyond_the_skip_window_is_rejected() {
    let mut account = Account::new();
    let peer = Account::new();
    let (mut account_session, mut peer_session, _) = establish(&mut account, &peer, "start");

    // Skip far past the receiver's bounded skip window, then deliver.
    let mut last = peer_session.encrypt("skipped").unwrap();
    for _ in 0..2001 {
        last = peer_session.encrypt("skipped").unwrap();
    }

    assert!(matches!(
        account_session.decrypt(&last),
        Err(SessionError::Decryption(OlmDecryptionError::TooBigMessageGap))
    ));
}
