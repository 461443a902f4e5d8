use wireguard::types::keys::{Key, KeyPair};

fn key(fill: u8, id: u32) -> Key {
    Key { key: [fill; 32], id }
}

#[test]
fn local_id_is_the_receive_keys_identifier() {
    let pair = KeyPair { birth: 7, initiator: true, send: key(1, 11), recv: key(2, 22) };
    assert_eq!(pair.local_id(), 22);
}

#[test]
fn initiator_sends_with_the_first_key() {
    let pair = KeyPair::from_split(true, [1; 32], [2; 32], 5, 9, 100);
    assert_eq!(pair.send.key, [1; 32]);
    assert_eq!(pair.recv.key, [2; 32]);
    assert_eq!(pair.send.id, 9);
    assert_eq!(pair.recv.id, 5);
    assert_eq!(pair.local_id(), 5);
    assert_eq!(pair.birth, 100);
    assert!(pair.initiator);
}

#[test]
fn responder_sends_with_the_second_key() {
    let pair = KeyPair::from_split(false, [1; 32], [2; 32], 9, 5, 101);
    assert_eq!(pair.send.key, [2; 32]);
    assert_eq!(pair.recv.key, [1; 32]);
    assert_eq!(pair.send.id, 5);
    assert_eq!(pair.recv.id, 9);
    assert!(!pair.initiator);
}

#[test]
fn both_sides_of_one_split_agree() {
    let initiator = KeyPair::from_split(true, [3; 32], [4; 32], 70, 80, 1);
    let responder = KeyPair::from_split(false, [3; 32], [4; 32], 80, 70, 2);
    assert_eq!(initiator.send.key, responder.recv.key);
    assert_eq!(initiator.recv.key, responder.send.key);
    assert_eq!(initiator.send.id, responder.recv.id);
    assert_eq!(initiator.recv.id, responder.send.id);
}

#[test]
fn wipe_zeroes_the_key_and_keeps_the_identifier() {
    let mut k = key(0xab, 3);
    k.wipe();
    assert_eq!(k.key, [0u8; 32]);
    assert_eq!(k.id, 3);
}

#[test]
fn keys_compare_by_identifier_and_bytes() {
    assert!(key(1, 2) == key(1, 2));
    assert!(key(1, 2) != key(1, 3));
    assert!(key(1, 2) != key(9, 2));
    let mut other = key(1, 2);
    other.key[31] = 0;
    assert!(key(1, 2) != other);
}

#[test]
fn duplicate_is_equal() {
    let k = key(5, 6);
    let copy = k.duplicate();
    assert!(k == copy);
    let pair = KeyPair { birth: 1, initiator: false, send: key(1, 2), recv: key(3, 4) };
    let twin = pair.duplicate();
    assert!(twin.send == pair.send);
    assert!(twin.recv == pair.recv);
    assert_eq!(twin.birth, 1);
    assert!(!twin.initiator);
    let cloned = pair.clone();
    assert!(cloned.recv == pair.recv);
}
