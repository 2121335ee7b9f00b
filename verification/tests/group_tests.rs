use olm_core::GroupSession;
use olm_core::InboundGroupSession;
use olm_core::MegolmDecryptionError;
use olm_core::PickleError;

#[test]
fn group_messages_round_trip_from_the_start() {
    let mut outbound = GroupSession::new();
    assert_eq!(outbound.message_index(), 0);
    let session_key = outbound.session_key();
    let mut inbound = InboundGroupSession::new(&session_key).unwrap();

    assert_eq!(inbound.session_id(), outbound.session_id());
    assert_eq!(inbound.first_known_index(), 0);

    let m0 = outbound.encrypt("first");
    let m1 = outbound.encrypt("second");
    assert_eq!(outbound.message_index(), 2);

    assert_eq!(inbound.decrypt(&m0).unwrap(), (b"first".to_vec(), 0));
    assert_eq!(inbound.decrypt(&m1).unwrap(), (b"second".to_vec(), 1));
}

#[test]
fn export_draws_the_line_at_the_exported_index() {
    let mut outbound = GroupSession::new();
    let m0 = outbound.encrypt("zero");
    let m1 = outbound.encrypt("one");
    let session_key = outbound.session_key();
    let m2 = outbound.encrypt("two");
    let m3 = outbound.encrypt("three");

    let mut inbound = InboundGroupSession::new(&session_key).unwrap();
    assert_eq!(inbound.first_known_index(), 2);

    assert_eq!(inbound.decrypt(&m2).unwrap(), (b"two".to_vec(), 2));
    assert_eq!(inbound.decrypt(&m3).unwrap(), (b"three".to_vec(), 3));

    assert!(matches!(
        inbound.decrypt(&m0),
        Err(MegolmDecryptionError::UnknownMessageIndex(2, 0))
    ));
    assert!(matches!(
        inbound.decrypt(&m1),
        Err(MegolmDecryptionError::UnknownMessageIndex(2, 1))
    ));
}

#[test]
fn forward_jumps_keep_earlier_indices_reachable() {
    let mut outbound = GroupSession::new();
    let session_key = outbound.session_key();
    let mut inbound = InboundGroupSession::new(&session_key).unwrap();

    let messages: Vec<String> = (0..6).map(|i| outbound.encrypt(&format!("m{i}"))).collect();

    assert_eq!(inbound.decrypt(&messages[5]).unwrap(), (b"m5".to_vec(), 5));
    assert_eq!(inbound.decrypt(&messages[2]).unwrap(), (b"m2".to_vec(), 2));
    assert_eq!(inbound.decrypt(&messages[0]).unwrap(), (b"m0".to_vec(), 0));
}

#[test]
fn a_snapshot_cannot_reach_back_before_its_index() {
    let mut outbound = GroupSession::new();
    let session_key = outbound.session_key();
    let mut inbound = InboundGroupSession::new(&session_key).unwrap();

    let messages: Vec<String> = (0..6).map(|i| outbound.encrypt(&format!("m{i}"))).collect();

    // Exporting forward is always possible: the ratchet can advance.
    assert!(inbound.export_at(7).is_some());
    let snapshot = inbound.export_at(2).unwrap();
    let mut joined = InboundGroupSession::import(&snapshot).unwrap();
    assert_eq!(joined.first_known_index(), 2);
    assert_eq!(joined.session_id(), inbound.session_id());

    assert_eq!(joined.decrypt(&messages[5]).unwrap(), (b"m5".to_vec(), 5));
    assert_eq!(joined.decrypt(&messages[2]).unwrap(), (b"m2".to_vec(), 2));
    assert!(matches!(
        joined.decrypt(&messages[1]),
        Err(MegolmDecryptionError::UnknownMessageIndex(2, 1))
    ));
    assert!(joined.export_at(1).is_none());
}

#[test]
fn malformed_group_input_is_rejected() {
    assert!(InboundGroupSession::new("not a session key").is_err());
    assert!(InboundGroupSession::import("not a snapshot").is_err());

    let mut outbound = GroupSession::new();
    let session_key = outbound.session_key();
    let mut inbound = InboundGroupSession::new(&session_key).unwrap();
    assert!(matches!(
        inbound.decrypt("!!! not a message !!!"),
        Err(MegolmDecryptionError::Decode)
    ));

    // An exported snapshot has no signature, so it cannot stand in for a
    // signed session key.
    let snapshot = inbound.export_at(0).unwrap();
    assert!(InboundGroupSession::new(&snapshot).is_err());
}

#[test]
fn tampered_group_message_fails_the_authenticity_gate() {
    let mut outbound = GroupSession::new();
    let session_key = outbound.session_key();
    let mut inbound = InboundGroupSession::new(&session_key).unwrap();

    let message = outbound.encrypt("authentic");
    let mut bytes: Vec<char> = message.chars().collect();
    let target = bytes.len() / 2;
    bytes[target] = if bytes[target] == 'A' { 'B' } else { 'A' };
    let tampered: String = bytes.into_iter().collect();

    assert!(inbound.decrypt(&tampered).is_err());
    // The authentic message still decrypts.
    assert_eq!(inbound.decrypt(&message).unwrap(), (b"authentic".to_vec(), 0));
}

#[test]
fn group_session_pickles_round_trip() {
    let pickle_key = [9u8; 32];
    let mut outbound = GroupSession::new();
    let m0 = outbound.encrypt("before pickling");

    let pickle = outbound.pickle(&pickle_key).unwrap();
    let mut restored = GroupSession::from_pickle(&pickle, &pickle_key).unwrap();
    assert_eq!(restored.session_id(), outbound.session_id());
    assert_eq!(restored.message_index(), 1);

    let session_key = outbound.session_key();
    let mut inbound = InboundGroupSession::new(&session_key).unwrap();
    let inbound_pickle = inbound.pickle(&pickle_key).unwrap();
    let mut inbound_restored =
        InboundGroupSession::from_pickle(&inbound_pickle, &pickle_key).unwrap();
    assert_eq!(inbound_restored.first_known_index(), 1);

    let m1 = restored.encrypt("after pickling");
    assert_eq!(
        inbound_restored.decrypt(&m1).unwrap(),
        (b"after pickling".to_vec(), 1)
    );
    assert!(matches!(
        inbound_restored.decrypt(&m0),
        Err(MegolmDecryptionError::UnknownMessageIndex(1, 0))
    ));
}

#[test]
fn group_pickle_accepts_exactly_one_key_size() {
    let outbound = GroupSession::new();
    assert_eq!(
        outbound.pickle(&[0u8; 5]),
        Err(PickleError::InvalidKeySize(5))
    );
    assert!(matches!(
        GroupSession::from_pickle("whatever", &[0u8; 31]),
        Err(PickleError::InvalidKeySize(31))
    ));
    let session_key = outbound.session_key();
    let inbound = InboundGroupSession::new(&session_key).unwrap();
    assert_eq!(
        inbound.pickle(&[0u8; 33]),
        Err(PickleError::InvalidKeySize(33))
    );
    assert!(matches!(
        InboundGroupSession::from_pickle("whatever", &[0u8; 0]),
        Err(PickleError::InvalidKeySize(0))
    ));
}

#[test]
fn session_ids_are_stable_across_operations() {
    let mut outbound = GroupSession::new();
    let id = outbound.session_id();
    let key = outbound.session_key();
    let message = outbound.encrypt("payload");
    assert_eq!(outbound.session_id(), id);

    let mut inbound = InboundGroupSession::new(&key).unwrap();
    let inbound_id = inbound.session_id();
    inbound.decrypt(&message).unwrap();
    inbound.export_at(1).unwrap();
    assert_eq!(inbound.session_id(), inbound_id);
}
