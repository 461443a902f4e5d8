use wireguard::consts::MAX_PLAINTEXT;
use wireguard::error::PeerError;
use wireguard::protocol::peer::{count_bytes, Peer, PeerInfo, Session};
use wireguard::protocol::timer::PeerTimers;
use wireguard::protocol::wire::{build_transport, parse_transport};
use wireguard::types::addr::{Endpoint, IpAddress};
use wireguard::types::keys::KeyPair;

fn endpoint() -> Endpoint {
    Endpoint { ip: IpAddress::V4(0x0a00_0001), port: 51820 }
}

fn sessions() -> (Session, Session) {
    let first = [0x11u8; 32];
    let second = [0x22u8; 32];
    let ours = Session::new(KeyPair::from_split(true, first, second, 100, 200, 5));
    let theirs = Session::new(KeyPair::from_split(false, first, second, 200, 100, 5));
    (ours, theirs)
}

fn peer_with(current: Option<Session>, past: Option<Session>, to: Option<Endpoint>) -> Peer {
    let mut peer = Peer::new(PeerInfo { pub_key: [7; 32], psk: Some([8; 32]), endpoint: to });
    peer.sessions.current = current;
    peer.sessions.past = past;
    peer
}

#[test]
fn sealed_message_has_header_nonce_and_tag() {
    let (mut ours, _) = sessions();
    let packet = ours.seal(b"0123456789").unwrap();
    assert_eq!(packet.len(), 16 + 10 + 16);
    assert_eq!(&packet[..4], &[4, 0, 0, 0]);
    let parsed = parse_transport(&packet).unwrap();
    assert_eq!(parsed.receiver_index, 200);
    assert_eq!(parsed.nonce, 0);
    assert_eq!(parsed.ciphertext.len(), 26);
    assert_ne!(&parsed.ciphertext[..10], b"0123456789");
}

#[test]
fn other_side_opens_what_was_sealed() {
    let (mut ours, mut theirs) = sessions();
    let packet = ours.seal(b"0123456789").unwrap();
    let parsed = parse_transport(&packet).unwrap();
    assert_eq!(theirs.open(parsed.nonce, &parsed.ciphertext), Some(b"0123456789".to_vec()));
    assert_eq!(ours.open(parsed.nonce, &parsed.ciphertext), None);
    let back = theirs.seal(b"pong").unwrap();
    let parsed = parse_transport(&back).unwrap();
    assert_eq!(parsed.receiver_index, 100);
    assert_eq!(ours.open(parsed.nonce, &parsed.ciphertext), Some(b"pong".to_vec()));
}

fn hex(text: &str) -> Vec<u8> {
    (0..text.len()).step_by(2).map(|i| u8::from_str_radix(&text[i..i + 2], 16).unwrap()).collect()
}

#[test]
fn sealing_is_chacha20poly1305_under_the_nonce() {
    // key of thirty-two bytes 0x11, no associated data, the nonce in the
    // last eight of the cipher's twelve nonce bytes, least significant first
    let (mut ours, theirs) = sessions();
    let empty = ours.seal(&[]).unwrap();
    assert_eq!(empty[16..], hex("692b14695e4985862cabef6340dbb5ef")[..]);

    let (mut ours, _) = sessions();
    let ten = ours.seal(b"0123456789").unwrap();
    assert_eq!(ten[16..], hex("958da5a54daca56eff7b66b7b4bb54293749c5ee9a462963dc50")[..]);

    let (mut ours, _) = sessions();
    ours.send_nonce = 5;
    let later = ours.seal(b"0123456789").unwrap();
    assert_eq!(later[8..16], [5, 0, 0, 0, 0, 0, 0, 0]);
    assert_eq!(later[16..], hex("e084311610f3a32f2187428aee6ad3ffa4edc4d0fb8130f1cf61")[..]);

    let (mut ours, _) = sessions();
    ours.send_nonce = 0x0102_0304_0506_0708;
    let wide = ours.seal(b"abc").unwrap();
    assert_eq!(wide[16..], hex("d5112b927f9587661504ccf01534f813d66d5e")[..]);

    assert_eq!(theirs.open(0, &hex("692b14695e4985862cabef6340dbb5ef")), Some(vec![]));
    assert_eq!(
        theirs.open(5, &hex("e084311610f3a32f2187428aee6ad3ffa4edc4d0fb8130f1cf61")),
        Some(b"0123456789".to_vec())
    );
    assert_eq!(
        theirs.open(0x0102_0304_0506_0708, &hex("d5112b927f9587661504ccf01534f813d66d5e")),
        Some(b"abc".to_vec())
    );
    assert_eq!(theirs.open(4, &hex("e084311610f3a32f2187428aee6ad3ffa4edc4d0fb8130f1cf61")), None);
}

#[test]
fn sealing_depends_on_nothing_but_key_nonce_and_plaintext() {
    let (mut ours, theirs) = sessions();
    let first = ours.seal(&[]).unwrap();
    let again = Session::new(KeyPair::from_split(true, [0x11; 32], [0x22; 32], 100, 200, 5))
        .seal(&[])
        .unwrap();
    assert_eq!(first, again);
    assert_eq!(first.len(), 32);
    let second = ours.seal(&[]).unwrap();
    assert_ne!(first[16..], second[16..]);
    assert_eq!(theirs.open(0, &first[16..]), Some(vec![]));
    assert_eq!(theirs.open(1, &first[16..]), None);
    assert_eq!(theirs.open(1, &second[16..]), Some(vec![]));
}

#[test]
fn nonces_rise_by_one_and_never_repeat() {
    let (mut ours, _) = sessions();
    let mut seen = Vec::new();
    for expected in 0u64..50 {
        assert_eq!(ours.send_nonce, expected);
        let packet = ours.seal(&[expected as u8]).unwrap();
        let nonce = parse_transport(&packet).unwrap().nonce;
        assert_eq!(nonce, expected);
        assert!(!seen.contains(&nonce));
        seen.push(nonce);
    }
    assert_eq!(ours.send_nonce, 50);
    assert_eq!(ours.keys.send.key, [0x11; 32]);
}

#[test]
fn last_nonce_is_never_used() {
    let (mut ours, _) = sessions();
    ours.send_nonce = u64::MAX - 1;
    let packet = ours.seal(b"x").unwrap();
    assert_eq!(parse_transport(&packet).unwrap().nonce, u64::MAX - 1);
    assert_eq!(ours.send_nonce, u64::MAX);
    assert_eq!(ours.seal(b"x"), Err(PeerError::NoActiveSession));
    assert_eq!(ours.send_nonce, u64::MAX);
}

#[test]
fn plaintext_must_fit_one_message() {
    let (mut ours, mut theirs) = sessions();
    let largest = vec![0x5au8; MAX_PLAINTEXT];
    let packet = ours.seal(&largest).unwrap();
    assert_eq!(packet.len(), 16 + 65535);
    assert_eq!(theirs.open(0, &packet[16..]), Some(largest));
    let too_large = vec![0u8; MAX_PLAINTEXT + 1];
    assert_eq!(ours.seal(&too_large), Err(PeerError::PayloadTooLarge));
    assert_eq!(ours.send_nonce, 1);
    assert_eq!(theirs.seal(&too_large), Err(PeerError::PayloadTooLarge));
    assert_eq!(theirs.send_nonce, 0);
}

#[test]
fn tampering_is_noticed() {
    let (mut ours, theirs) = sessions();
    let packet = ours.seal(b"attack at dawn").unwrap();
    let good = packet[16..].to_vec();
    assert!(theirs.open(0, &good).is_some());
    for position in [0, 5, good.len() - 1] {
        let mut bad = good.clone();
        bad[position] ^= 1;
        assert_eq!(theirs.open(0, &bad), None);
    }
    assert_eq!(theirs.open(1, &good), None);
    assert_eq!(theirs.open(0, &good[..good.len() - 1]), None);
}

#[test]
fn short_ciphertext_has_no_tag() {
    let (_, theirs) = sessions();
    assert_eq!(theirs.open(0, &[]), None);
    assert_eq!(theirs.open(0, &[0u8; 15]), None);
    assert_eq!(theirs.open(0, &[0u8; 16]), None);
}

#[test]
fn counters_stop_at_their_largest_value() {
    assert_eq!(count_bytes(0, 42), 42);
    assert_eq!(count_bytes(100, 0), 100);
    assert_eq!(count_bytes(u64::MAX - 10, 10), u64::MAX);
    assert_eq!(count_bytes(u64::MAX - 10, 11), u64::MAX);
    assert_eq!(count_bytes(u64::MAX, 1), u64::MAX);
}

#[test]
fn empty_slots_are_no_active_session() {
    let peer = peer_with(None, None, Some(endpoint()));
    assert!(matches!(peer.current(), Err(PeerError::NoActiveSession)));
    assert!(matches!(peer.past(), Err(PeerError::NoActiveSession)));
    assert!(matches!(peer.next(), Err(PeerError::NoActiveSession)));
    assert_eq!(peer.our_next_index(), None);
    assert_eq!(peer.their_current_index(), None);
    assert!(!peer.has_handshake_in_flight(0));
    assert_eq!(peer.tx_bytes, 0);
    assert_eq!(peer.rx_bytes, 0);
    assert_eq!(peer.timers, PeerTimers::new());
}

#[test]
fn filled_slots_are_handed_out() {
    let (ours, theirs) = sessions();
    let peer = peer_with(Some(ours), Some(theirs), None);
    assert_eq!(peer.current().unwrap().keys.local_id(), 100);
    assert_eq!(peer.past().unwrap().keys.local_id(), 200);
    assert_eq!(peer.their_current_index(), Some(200));
}

#[test]
fn peer_encrypt_counts_the_wire_size() {
    let (ours, mut theirs) = sessions();
    let mut peer = peer_with(Some(ours), None, Some(endpoint()));
    let (to, packet) = peer.encrypt(b"0123456789").unwrap();
    assert_eq!(to, endpoint());
    assert_eq!(packet.len(), 42);
    assert_eq!(peer.tx_bytes, 42);
    assert_eq!(peer.rx_bytes, 0);
    assert_eq!(peer.current().unwrap().send_nonce, 1);
    assert_eq!(theirs.open(0, &packet[16..]), Some(b"0123456789".to_vec()));
    let (_, keepalive) = peer.encrypt(&[]).unwrap();
    assert_eq!(keepalive.len(), 32);
    assert_eq!(peer.tx_bytes, 74);
    assert_eq!(parse_transport(&keepalive).unwrap().nonce, 1);
}

#[test]
fn peer_encrypt_refusals_change_nothing() {
    let mut idle = peer_with(None, None, Some(endpoint()));
    assert_eq!(idle.encrypt(b"x"), Err(PeerError::NoActiveSession));
    let mut nowhere = peer_with(None, None, None);
    assert_eq!(nowhere.encrypt(b"x"), Err(PeerError::NoActiveSession));
    let (ours, _) = sessions();
    let mut unreachable = peer_with(Some(ours), None, None);
    assert_eq!(unreachable.encrypt(b"x"), Err(PeerError::MissingEndpoint));
    assert_eq!(unreachable.tx_bytes, 0);
    assert_eq!(unreachable.current().unwrap().send_nonce, 0);
    let (ours, _) = sessions();
    let mut reachable = peer_with(Some(ours), None, Some(endpoint()));
    let too_large = vec![0u8; MAX_PLAINTEXT + 1];
    assert_eq!(reachable.encrypt(&too_large), Err(PeerError::PayloadTooLarge));
    assert_eq!(reachable.tx_bytes, 0);
    assert_eq!(reachable.current().unwrap().send_nonce, 0);
}

#[test]
fn peer_decrypt_falls_back_to_the_past_session() {
    let (mut old_theirs, old_ours) = sessions();
    let new_ours = Session::new(KeyPair::from_split(false, [0x33; 32], [0x44; 32], 201, 101, 9));
    let mut new_theirs =
        Session::new(KeyPair::from_split(true, [0x33; 32], [0x44; 32], 101, 201, 9));
    let mut peer = peer_with(Some(new_ours), Some(old_ours), None);

    let under_old = old_theirs.seal(b"old").unwrap();
    let parsed = parse_transport(&under_old).unwrap();
    let plain = peer.decrypt(parsed.nonce, &parsed.ciphertext, under_old.len()).unwrap();
    assert_eq!(plain, b"old".to_vec());
    assert_eq!(peer.rx_bytes, under_old.len() as u64);

    let under_new = new_theirs.seal(b"newer").unwrap();
    let parsed = parse_transport(&under_new).unwrap();
    let plain = peer.decrypt(parsed.nonce, &parsed.ciphertext, under_new.len()).unwrap();
    assert_eq!(plain, b"newer".to_vec());
    assert_eq!(peer.rx_bytes, (under_old.len() + under_new.len()) as u64);
}

#[test]
fn peer_decrypt_failure_counts_nothing() {
    let (mut theirs, ours) = sessions();
    let (_, stale) = sessions();
    let mut peer = peer_with(Some(ours), Some(stale), None);
    let packet = theirs.seal(b"hello").unwrap();
    let mut parsed = parse_transport(&packet).unwrap();
    parsed.ciphertext[0] ^= 0x80;
    let rebuilt = build_transport(parsed.receiver_index, parsed.nonce, &parsed.ciphertext);
    assert_eq!(
        peer.decrypt(parsed.nonce, &parsed.ciphertext, rebuilt.len()),
        Err(PeerError::DecryptFailed)
    );
    assert_eq!(peer.rx_bytes, 0);
    assert_eq!(peer.decrypt(0, &[], 16), Err(PeerError::DecryptFailed));
    let mut idle = peer_with(None, None, None);
    assert_eq!(idle.decrypt(0, &packet[16..], packet.len()), Err(PeerError::NoActiveSession));
    assert_eq!(idle.rx_bytes, 0);
}

#[test]
fn completing_without_a_handshake_changes_nothing() {
    let (ours, _) = sessions();
    let mut peer = peer_with(Some(ours), None, Some(endpoint()));
    assert_eq!(
        peer.complete_handshake(1, [1; 32], [2; 32], 50),
        Err(PeerError::NoActiveSession)
    );
    assert_eq!(peer.current().unwrap().keys.local_id(), 100);
    assert!(peer.past().is_err());
    assert_eq!(peer.timers, PeerTimers::new());
}
