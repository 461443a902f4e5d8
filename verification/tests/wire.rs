use wireguard::protocol::wire::{
    append_bytes, build_initiation, build_response, build_transport, bytes_equal, classify,
    copy_range, parse_initiation, parse_response, parse_transport, push_u32, push_u64,
    read_u32_at, read_u64_at, transport_receiver_index, PacketKind,
};

#[test]
fn classify_goes_by_the_first_byte() {
    assert_eq!(classify(&[1, 9, 9]), Some(PacketKind::HandshakeInit));
    assert_eq!(classify(&[2]), Some(PacketKind::HandshakeResponse));
    assert_eq!(classify(&[3, 0]), Some(PacketKind::CookieReply));
    assert_eq!(classify(&[4, 0, 0, 0]), Some(PacketKind::Transport));
}

#[test]
fn classify_knows_no_other_type() {
    assert_eq!(classify(&[]), None);
    assert_eq!(classify(&[0]), None);
    assert_eq!(classify(&[5, 1, 2]), None);
    assert_eq!(classify(&[255]), None);
}

#[test]
fn fields_are_little_endian() {
    let packet = [0u8, 0, 0, 0, 0x04, 0x03, 0x02, 0x01, 8, 7, 6, 5, 4, 3, 2, 1];
    assert_eq!(read_u32_at(&packet, 4), 0x0102_0304);
    assert_eq!(read_u64_at(&packet, 8), 0x0102_0304_0506_0708);
    let mut out = vec![0xffu8];
    push_u32(&mut out, 0x0102_0304);
    push_u64(&mut out, 0x0102_0304_0506_0708);
    assert_eq!(out, vec![0xff, 4, 3, 2, 1, 8, 7, 6, 5, 4, 3, 2, 1]);
}

#[test]
fn extreme_values_survive_the_wire() {
    let mut out = Vec::new();
    push_u32(&mut out, u32::MAX);
    push_u64(&mut out, u64::MAX);
    push_u32(&mut out, 0);
    push_u64(&mut out, 1 << 63);
    assert_eq!(read_u32_at(&out, 0), u32::MAX);
    assert_eq!(read_u64_at(&out, 4), u64::MAX);
    assert_eq!(read_u32_at(&out, 12), 0);
    assert_eq!(read_u64_at(&out, 16), 1 << 63);
}

#[test]
fn byte_helpers() {
    let mut out = vec![1u8, 2];
    append_bytes(&mut out, &[3, 4, 5]);
    assert_eq!(out, vec![1, 2, 3, 4, 5]);
    assert_eq!(copy_range(&out, 1, 4), vec![2, 3, 4]);
    assert_eq!(copy_range(&out, 2, 2), Vec::<u8>::new());
    assert!(bytes_equal(&[1, 2, 3], &[1, 2, 3]));
    assert!(!bytes_equal(&[1, 2, 3], &[1, 2, 4]));
    assert!(!bytes_equal(&[1, 2, 3], &[1, 2]));
    assert!(bytes_equal(&[], &[]));
}

#[test]
fn initiation_layout() {
    let packet = build_initiation(0x0a0b_0c0d, &[0xee, 0xff]);
    assert_eq!(packet, vec![1, 0, 0, 0, 0x0d, 0x0c, 0x0b, 0x0a, 0xee, 0xff]);
    assert_eq!(classify(&packet), Some(PacketKind::HandshakeInit));
    let parsed = parse_initiation(&packet).unwrap();
    assert_eq!(parsed.sender_index, 0x0a0b_0c0d);
    assert_eq!(parsed.payload, vec![0xee, 0xff]);
}

#[test]
fn initiation_needs_its_header() {
    assert!(parse_initiation(&[1, 0, 0, 0, 1, 2, 3]).is_none());
    assert!(parse_initiation(&[2, 0, 0, 0, 1, 2, 3, 4]).is_none());
    let empty = parse_initiation(&[1, 0, 0, 0, 1, 0, 0, 0]).unwrap();
    assert_eq!(empty.sender_index, 1);
    assert!(empty.payload.is_empty());
}

#[test]
fn response_layout() {
    let payload: Vec<u8> = (0u8..48).collect();
    let packet = build_response(1, 0x0100, &payload);
    assert_eq!(packet.len(), 60);
    assert_eq!(&packet[..12], &[2, 0, 0, 0, 1, 0, 0, 0, 0, 1, 0, 0]);
    assert_eq!(&packet[12..], &payload[..]);
    let parsed = parse_response(&packet).unwrap();
    assert_eq!(parsed.sender_index, 1);
    assert_eq!(parsed.receiver_index, 0x0100);
    assert_eq!(parsed.payload, payload);
}

#[test]
fn response_reads_sixty_bytes_and_no_more() {
    let payload: Vec<u8> = (0u8..48).collect();
    let mut packet = build_response(7, 8, &payload);
    packet.extend_from_slice(&[0xaa; 32]);
    let parsed = parse_response(&packet).unwrap();
    assert_eq!(parsed.payload, payload);
    assert!(parse_response(&packet[..59]).is_none());
    assert!(parse_response(&packet[..60]).is_some());
    packet[0] = 1;
    assert!(parse_response(&packet).is_none());
}

#[test]
fn transport_layout() {
    let packet = build_transport(0x0102_0304, 0x0807_0605_0403_0201, &[0xaa]);
    assert_eq!(packet, vec![4, 0, 0, 0, 4, 3, 2, 1, 1, 2, 3, 4, 5, 6, 7, 8, 0xaa]);
    let parsed = parse_transport(&packet).unwrap();
    assert_eq!(parsed.receiver_index, 0x0102_0304);
    assert_eq!(parsed.nonce, 0x0807_0605_0403_0201);
    assert_eq!(parsed.ciphertext, vec![0xaa]);
    assert_eq!(transport_receiver_index(&packet), Some(0x0102_0304));
}

#[test]
fn transport_header_may_be_cut_short() {
    let packet = build_transport(9, 1, &[]);
    assert_eq!(packet.len(), 16);
    assert!(parse_transport(&packet).unwrap().ciphertext.is_empty());
    assert!(parse_transport(&packet[..15]).is_none());
    assert_eq!(transport_receiver_index(&packet[..8]), Some(9));
    assert_eq!(transport_receiver_index(&packet[..7]), None);
    assert_eq!(transport_receiver_index(&[1, 0, 0, 0, 9, 0, 0, 0]), None);
    assert!(parse_transport(&[2u8; 40]).is_none());
}
