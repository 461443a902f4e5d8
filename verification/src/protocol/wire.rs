//! The wire format: the type byte that every datagram starts with, the
//! little-endian fields behind it, and the three message layouts.

use byteorder::{ByteOrder, LittleEndian};
use vstd::arithmetic::div_mod::{lemma_div_denominator, lemma_fundamental_div_mod};
use vstd::prelude::*;

verus! {

/// Type byte of a handshake initiation.
pub const TYPE_HANDSHAKE_INIT: u8 = 1;

/// Type byte of a handshake response.
pub const TYPE_HANDSHAKE_RESPONSE: u8 = 2;

/// Type byte of a cookie reply.
pub const TYPE_COOKIE_REPLY: u8 = 3;

/// Type byte of a transport message.
pub const TYPE_TRANSPORT: u8 = 4;

/// Offset of the first session index of a message.
pub const INDEX_OFFSET: usize = 4;

/// Offset of the handshake payload in an initiation.
pub const INIT_PAYLOAD_OFFSET: usize = 8;

/// Offset of the receiver's session index in a handshake response.
pub const RESPONSE_RECEIVER_OFFSET: usize = 8;

/// Offset of the handshake payload in a response.
pub const RESPONSE_PAYLOAD_OFFSET: usize = 12;

/// Length of the handshake payload in a response.
pub const RESPONSE_PAYLOAD_LEN: usize = 48;

/// Offset of the nonce in a transport message.
pub const TRANSPORT_NONCE_OFFSET: usize = 8;

/// Offset of the ciphertext in a transport message.
pub const TRANSPORT_PAYLOAD_OFFSET: usize = 16;

/// The 32-bit number that the first four bytes of `s` spell, least
/// significant byte first.
pub open spec fn le_u32(s: Seq<u8>) -> u32
    recommends
        s.len() >= 4,
{
    (s[0] as int + s[1] as int * 0x100 + s[2] as int * 0x1_0000 + s[3] as int * 0x100_0000) as u32
}

/// The 64-bit number that the first eight bytes of `s` spell, least
/// significant byte first.
pub open spec fn le_u64(s: Seq<u8>) -> u64
    recommends
        s.len() >= 8,
{
    (le_u32(s) as int + le_u32(s.subrange(4, 8)) as int * 0x1_0000_0000) as u64
}

/// The four bytes of `v`, least significant first.
pub open spec fn u32_le_bytes(v: u32) -> Seq<u8> {
    seq![
        (v % 0x100) as u8,
        ((v / 0x100) % 0x100) as u8,
        ((v / 0x1_0000) % 0x100) as u8,
        (v / 0x100_0000) as u8,
    ]
}

/// The eight bytes of `v`, least significant first.
pub open spec fn u64_le_bytes(v: u64) -> Seq<u8> {
    u32_le_bytes((v % 0x1_0000_0000) as u32) + u32_le_bytes((v / 0x1_0000_0000) as u32)
}

/// Reading back the bytes of a 32-bit number gives the number.
pub proof fn lemma_u32_le_roundtrip(v: u32)
    ensures
        u32_le_bytes(v).len() == 4,
        le_u32(u32_le_bytes(v)) == v,
{
    let x = v as int;
    lemma_fundamental_div_mod(x, 0x100);
    lemma_fundamental_div_mod(x / 0x100, 0x100);
    lemma_fundamental_div_mod(x / 0x1_0000, 0x100);
    lemma_div_denominator(x, 0x100, 0x100);
    lemma_div_denominator(x, 0x1_0000, 0x100);
}

/// Reading back the bytes of a 64-bit number gives the number.
pub proof fn lemma_u64_le_roundtrip(v: u64)
    ensures
        u64_le_bytes(v).len() == 8,
        le_u64(u64_le_bytes(v)) == v,
{
    let lo = (v % 0x1_0000_0000) as u32;
    let hi = (v / 0x1_0000_0000) as u32;
    lemma_u32_le_roundtrip(lo);
    lemma_u32_le_roundtrip(hi);
    let s = u64_le_bytes(v);
    assert(s.subrange(4, 8) =~= u32_le_bytes(hi));
}

/// `byteorder`'s `LittleEndian::read_u32`: the number spelled by the first
/// four bytes of the buffer. It panics on a shorter buffer.
#[verifier::external_body]
fn read_u32_le(buf: &[u8]) -> (v: u32)
    requires
        buf@.len() >= 4,
    ensures
        v == le_u32(buf@),
{
    LittleEndian::read_u32(buf)
}

/// `byteorder`'s `LittleEndian::read_u64`: the number spelled by the first
/// eight bytes of the buffer. It panics on a shorter buffer.
#[verifier::external_body]
fn read_u64_le(buf: &[u8]) -> (v: u64)
    requires
        buf@.len() >= 8,
    ensures
        v == le_u64(buf@),
{
    LittleEndian::read_u64(buf)
}

/// `byteorder`'s `LittleEndian::write_u32`: fills the buffer with the four
/// bytes of the number.
#[verifier::external_body]
fn write_u32_le(buf: &mut [u8; 4], v: u32)
    ensures
        final(buf)@ == u32_le_bytes(v),
{
    LittleEndian::write_u32(buf, v)
}

/// `byteorder`'s `LittleEndian::write_u64`: fills the buffer with the eight
/// bytes of the number.
#[verifier::external_body]
fn write_u64_le(buf: &mut [u8; 8], v: u64)
    ensures
        final(buf)@ == u64_le_bytes(v),
{
    LittleEndian::write_u64(buf, v)
}

/// Appends a copy of `src` to `out`.
pub fn append_bytes(out: &mut Vec<u8>, src: &[u8])
    ensures
        final(out)@ == old(out)@ + src@,
{
    let mut i: usize = 0;
    while i < src.len()
        invariant
            i <= src@.len(),
            out@ == old(out)@ + src@.subrange(0, i as int),
        decreases src@.len() - i,
    {
        out.push(src[i]);
        i = i + 1;
    }
    assert(src@.subrange(0, src@.len() as int) =~= src@);
}

/// A copy of the bytes of `src` from `from` up to `to`.
pub fn copy_range(src: &[u8], from: usize, to: usize) -> (out: Vec<u8>)
    requires
        from <= to <= src@.len(),
    ensures
        out@ == src@.subrange(from as int, to as int),
{
    let mut out: Vec<u8> = Vec::new();
    let mut i: usize = from;
    while i < to
        invariant
            from <= i <= to <= src@.len(),
            out@ == src@.subrange(from as int, i as int),
        decreases to - i,
    {
        out.push(src[i]);
        i = i + 1;
    }
    out
}

/// Tells whether two byte strings are the same.
pub fn bytes_equal(a: &[u8], b: &[u8]) -> (same: bool)
    ensures
        same == (a@ == b@),
{
    if a.len() != b.len() {
        return false;
    }
    let mut i: usize = 0;
    while i < a.len()
        invariant
            a@.len() == b@.len(),
            i <= a@.len(),
            a@.subrange(0, i as int) == b@.subrange(0, i as int),
        decreases a@.len() - i,
    {
        if a[i] != b[i] {
            return false;
        }
        assert(a@.subrange(0, i + 1) =~= a@.subrange(0, i as int).push(a@[i as int]));
        assert(b@.subrange(0, i + 1) =~= b@.subrange(0, i as int).push(b@[i as int]));
        i = i + 1;
    }
    assert(a@ =~= a@.subrange(0, a@.len() as int));
    assert(b@ =~= b@.subrange(0, b@.len() as int));
    true
}

/// The 32-bit field at `offset`.
pub fn read_u32_at(packet: &[u8], offset: usize) -> (v: u32)
    requires
        offset + 4 <= packet.len(),
    ensures
        v == le_u32(packet@.subrange(offset as int, offset + 4)),
{
    let field = copy_range(packet, offset, offset + 4);
    read_u32_le(field.as_slice())
}

/// The 64-bit field at `offset`.
pub fn read_u64_at(packet: &[u8], offset: usize) -> (v: u64)
    requires
        offset + 8 <= packet.len(),
    ensures
        v == le_u64(packet@.subrange(offset as int, offset + 8)),
{
    let field = copy_range(packet, offset, offset + 8);
    read_u64_le(field.as_slice())
}

/// Appends the four bytes of `v`, least significant first.
pub fn push_u32(out: &mut Vec<u8>, v: u32)
    ensures
        final(out)@ == old(out)@ + u32_le_bytes(v),
{
    let mut field = [0u8; 4];
    write_u32_le(&mut field, v);
    append_bytes(out, field.as_slice());
}

/// Appends the eight bytes of `v`, least significant first.
pub fn push_u64(out: &mut Vec<u8>, v: u64)
    ensures
        final(out)@ == old(out)@ + u64_le_bytes(v),
{
    let mut field = [0u8; 8];
    write_u64_le(&mut field, v);
    append_bytes(out, field.as_slice());
}

/// What a datagram claims to be.
#[derive(Debug, Clone, Copy, PartialEq, Eq, Structural)]
pub enum PacketKind {
    HandshakeInit,
    HandshakeResponse,
    CookieReply,
    Transport,
}

/// The kind that a type byte stands for.
pub open spec fn kind_of_type(t: u8) -> Option<PacketKind> {
    if t == TYPE_HANDSHAKE_INIT {
        Some(PacketKind::HandshakeInit)
    } else if t == TYPE_HANDSHAKE_RESPONSE {
        Some(PacketKind::HandshakeResponse)
    } else if t == TYPE_COOKIE_REPLY {
        Some(PacketKind::CookieReply)
    } else if t == TYPE_TRANSPORT {
        Some(PacketKind::Transport)
    } else {
        None
    }
}

/// The kind of a datagram: decided by its first byte alone; an empty
/// datagram has none.
pub open spec fn packet_kind(packet: Seq<u8>) -> Option<PacketKind> {
    if packet.len() == 0 {
        None
    } else {
        kind_of_type(packet[0])
    }
}

/// Classifies a datagram by its first byte.
pub fn classify(packet: &[u8]) -> (kind: Option<PacketKind>)
    ensures
        kind == packet_kind(packet@),
{
    if packet.len() == 0 {
        return None;
    }
    let t = packet[0];
    if t == TYPE_HANDSHAKE_INIT {
        Some(PacketKind::HandshakeInit)
    } else if t == TYPE_HANDSHAKE_RESPONSE {
        Some(PacketKind::HandshakeResponse)
    } else if t == TYPE_COOKIE_REPLY {
        Some(PacketKind::CookieReply)
    } else if t == TYPE_TRANSPORT {
        Some(PacketKind::Transport)
    } else {
        None
    }
}

/// The first four bytes of a message: its type and three reserved zero bytes.
pub open spec fn type_header(t: u8) -> Seq<u8> {
    seq![t, 0u8, 0u8, 0u8]
}

/// A handshake initiation on the wire.
pub open spec fn initiation_bytes(sender_index: u32, payload: Seq<u8>) -> Seq<u8> {
    type_header(TYPE_HANDSHAKE_INIT) + u32_le_bytes(sender_index) + payload
}

/// A handshake response on the wire.
pub open spec fn response_bytes(sender_index: u32, receiver_index: u32, payload: Seq<u8>) -> Seq<
    u8,
> {
    type_header(TYPE_HANDSHAKE_RESPONSE) + u32_le_bytes(sender_index) + u32_le_bytes(
        receiver_index,
    ) + payload
}

/// A transport message on the wire.
pub open spec fn transport_bytes(receiver_index: u32, nonce: u64, ciphertext: Seq<u8>) -> Seq<u8> {
    type_header(TYPE_TRANSPORT) + u32_le_bytes(receiver_index) + u64_le_bytes(nonce) + ciphertext
}

fn push_type_header(out: &mut Vec<u8>, t: u8)
    ensures
        final(out)@ == old(out)@ + type_header(t),
{
    out.push(t);
    out.push(0);
    out.push(0);
    out.push(0);
    assert(out@ =~= old(out)@ + type_header(t));
}

/// Frames a handshake initiation: type 1, the sender's session index, then
/// the handshake payload.
pub fn build_initiation(sender_index: u32, payload: &[u8]) -> (packet: Vec<u8>)
    ensures
        packet@ == initiation_bytes(sender_index, payload@),
{
    let mut packet: Vec<u8> = Vec::new();
    push_type_header(&mut packet, TYPE_HANDSHAKE_INIT);
    push_u32(&mut packet, sender_index);
    append_bytes(&mut packet, payload);
    assert(packet@ =~= initiation_bytes(sender_index, payload@));
    packet
}

/// Frames a handshake response: type 2, the sender's session index, the
/// receiver's session index, then the handshake payload.
pub fn build_response(sender_index: u32, receiver_index: u32, payload: &[u8]) -> (packet: Vec<u8>)
    ensures
        packet@ == response_bytes(sender_index, receiver_index, payload@),
{
    let mut packet: Vec<u8> = Vec::new();
    push_type_header(&mut packet, TYPE_HANDSHAKE_RESPONSE);
    push_u32(&mut packet, sender_index);
    push_u32(&mut packet, receiver_index);
    append_bytes(&mut packet, payload);
    assert(packet@ =~= response_bytes(sender_index, receiver_index, payload@));
    packet
}

/// Frames a transport message: type 4, the receiver's session index, the
/// nonce, then the ciphertext.
pub fn build_transport(receiver_index: u32, nonce: u64, ciphertext: &[u8]) -> (packet: Vec<u8>)
    ensures
        packet@ == transport_bytes(receiver_index, nonce, ciphertext@),
{
    let mut packet: Vec<u8> = Vec::new();
    push_type_header(&mut packet, TYPE_TRANSPORT);
    push_u32(&mut packet, receiver_index);
    push_u64(&mut packet, nonce);
    append_bytes(&mut packet, ciphertext);
    assert(packet@ =~= transport_bytes(receiver_index, nonce, ciphertext@));
    packet
}

/// The fields of a handshake initiation.
pub struct Initiation {
    pub sender_index: u32,
    pub payload: Vec<u8>,
}

/// The fields of a handshake response.
pub struct Response {
    pub sender_index: u32,
    pub receiver_index: u32,
    pub payload: Vec<u8>,
}

/// The fields of a transport message.
pub struct Transport {
    pub receiver_index: u32,
    pub nonce: u64,
    pub ciphertext: Vec<u8>,
}

/// Whether a datagram is a well-formed initiation: type 1 and a complete
/// header.
pub open spec fn is_initiation(packet: Seq<u8>) -> bool {
    packet.len() >= INIT_PAYLOAD_OFFSET && packet[0] == TYPE_HANDSHAKE_INIT
}

/// Whether a datagram is a well-formed response: type 2 and at least the
/// sixty bytes that hold both indices and the payload.
pub open spec fn is_response(packet: Seq<u8>) -> bool {
    packet.len() >= RESPONSE_PAYLOAD_OFFSET + RESPONSE_PAYLOAD_LEN && packet[0]
        == TYPE_HANDSHAKE_RESPONSE
}

/// Whether a datagram is a transport message with a complete header.
pub open spec fn is_transport(packet: Seq<u8>) -> bool {
    packet.len() >= TRANSPORT_PAYLOAD_OFFSET && packet[0] == TYPE_TRANSPORT
}

/// Whether a datagram is a transport message long enough to name the
/// session it is for.
pub open spec fn has_receiver_index(packet: Seq<u8>) -> bool {
    packet.len() >= INDEX_OFFSET + 4 && packet[0] == TYPE_TRANSPORT
}

/// The session index at offset 4.
pub open spec fn index_field(packet: Seq<u8>) -> u32 {
    le_u32(packet.subrange(INDEX_OFFSET as int, INDEX_OFFSET + 4))
}

/// The receiver's session index of a response, at offset 8.
pub open spec fn response_receiver_field(packet: Seq<u8>) -> u32 {
    le_u32(packet.subrange(RESPONSE_RECEIVER_OFFSET as int, RESPONSE_RECEIVER_OFFSET + 4))
}

/// The 48 bytes of handshake payload of a response, at offset 12. What
/// follows them is not read.
pub open spec fn response_payload_field(packet: Seq<u8>) -> Seq<u8> {
    packet.subrange(
        RESPONSE_PAYLOAD_OFFSET as int,
        RESPONSE_PAYLOAD_OFFSET + RESPONSE_PAYLOAD_LEN,
    )
}

/// The nonce of a transport message, at offset 8.
pub open spec fn nonce_field(packet: Seq<u8>) -> u64 {
    le_u64(packet.subrange(TRANSPORT_NONCE_OFFSET as int, TRANSPORT_NONCE_OFFSET + 8))
}

/// The ciphertext of a transport message: everything from offset 16.
pub open spec fn ciphertext_field(packet: Seq<u8>) -> Seq<u8> {
    packet.subrange(TRANSPORT_PAYLOAD_OFFSET as int, packet.len() as int)
}

/// The handshake payload of an initiation: everything from offset 8.
pub open spec fn initiation_payload_field(packet: Seq<u8>) -> Seq<u8> {
    packet.subrange(INIT_PAYLOAD_OFFSET as int, packet.len() as int)
}

/// Reads a handshake initiation.
pub fn parse_initiation(packet: &[u8]) -> (parsed: Option<Initiation>)
    ensures
        parsed.is_some() == is_initiation(packet@),
        parsed matches Some(m) ==> m.sender_index == index_field(packet@) && m.payload@
            == initiation_payload_field(packet@),
{
    if packet.len() < INIT_PAYLOAD_OFFSET || packet[0] != TYPE_HANDSHAKE_INIT {
        return None;
    }
    let sender_index = read_u32_at(packet, INDEX_OFFSET);
    let payload = copy_range(packet, INIT_PAYLOAD_OFFSET, packet.len());
    Some(Initiation { sender_index, payload })
}

/// Reads a handshake response.
pub fn parse_response(packet: &[u8]) -> (parsed: Option<Response>)
    ensures
        parsed.is_some() == is_response(packet@),
        parsed matches Some(m) ==> m.sender_index == index_field(packet@) && m.receiver_index
            == response_receiver_field(packet@) && m.payload@ == response_payload_field(packet@),
{
    if packet.len() < RESPONSE_PAYLOAD_OFFSET + RESPONSE_PAYLOAD_LEN || packet[0]
        != TYPE_HANDSHAKE_RESPONSE {
        return None;
    }
    let sender_index = read_u32_at(packet, INDEX_OFFSET);
    let receiver_index = read_u32_at(packet, RESPONSE_RECEIVER_OFFSET);
    let payload = copy_range(
        packet,
        RESPONSE_PAYLOAD_OFFSET,
        RESPONSE_PAYLOAD_OFFSET + RESPONSE_PAYLOAD_LEN,
    );
    Some(Response { sender_index, receiver_index, payload })
}

/// Reads the session index that a transport message is addressed to.
pub fn transport_receiver_index(packet: &[u8]) -> (index: Option<u32>)
    ensures
        index.is_some() == has_receiver_index(packet@),
        index matches Some(i) ==> i == index_field(packet@),
{
    if packet.len() < INDEX_OFFSET + 4 || packet[0] != TYPE_TRANSPORT {
        return None;
    }
    Some(read_u32_at(packet, INDEX_OFFSET))
}

/// Reads a transport message.
pub fn parse_transport(packet: &[u8]) -> (parsed: Option<Transport>)
    ensures
        parsed.is_some() == is_transport(packet@),
        parsed matches Some(m) ==> m.receiver_index == index_field(packet@) && m.nonce
            == nonce_field(packet@) && m.ciphertext@ == ciphertext_field(packet@),
{
    if packet.len() < TRANSPORT_PAYLOAD_OFFSET || packet[0] != TYPE_TRANSPORT {
        return None;
    }
    let receiver_index = read_u32_at(packet, INDEX_OFFSET);
    let nonce = read_u64_at(packet, TRANSPORT_NONCE_OFFSET);
    let ciphertext = copy_range(packet, TRANSPORT_PAYLOAD_OFFSET, packet.len());
    Some(Transport { receiver_index, nonce, ciphertext })
}

/// A framed initiation reads back as what was framed.
pub proof fn lemma_initiation_roundtrip(sender_index: u32, payload: Seq<u8>)
    ensures
        packet_kind(initiation_bytes(sender_index, payload)) == Some(PacketKind::HandshakeInit),
        is_initiation(initiation_bytes(sender_index, payload)),
        index_field(initiation_bytes(sender_index, payload)) == sender_index,
        initiation_payload_field(initiation_bytes(sender_index, payload)) == payload,
{
    let p = initiation_bytes(sender_index, payload);
    lemma_u32_le_roundtrip(sender_index);
    assert(p.subrange(4, 8) =~= u32_le_bytes(sender_index));
    assert(initiation_payload_field(p) =~= payload);
}

/// A framed response of 48 payload bytes reads back as what was framed.
pub proof fn lemma_response_roundtrip(sender_index: u32, receiver_index: u32, payload: Seq<u8>)
    requires
        payload.len() == RESPONSE_PAYLOAD_LEN,
    ensures
        packet_kind(response_bytes(sender_index, receiver_index, payload)) == Some(
            PacketKind::HandshakeResponse,
        ),
        is_response(response_bytes(sender_index, receiver_index, payload)),
        index_field(response_bytes(sender_index, receiver_index, payload)) == sender_index,
        response_receiver_field(response_bytes(sender_index, receiver_index, payload))
            == receiver_index,
        response_payload_field(response_bytes(sender_index, receiver_index, payload)) == payload,
{
    let p = response_bytes(sender_index, receiver_index, payload);
    lemma_u32_le_roundtrip(sender_index);
    lemma_u32_le_roundtrip(receiver_index);
    assert(p.subrange(4, 8) =~= u32_le_bytes(sender_index));
    assert(p.subrange(8, 12) =~= u32_le_bytes(receiver_index));
    assert(response_payload_field(p) =~= payload);
}

/// A framed transport message reads back as what was framed.
pub proof fn lemma_transport_roundtrip(receiver_index: u32, nonce: u64, ciphertext: Seq<u8>)
    ensures
        packet_kind(transport_bytes(receiver_index, nonce, ciphertext)) == Some(
            PacketKind::Transport,
        ),
        is_transport(transport_bytes(receiver_index, nonce, ciphertext)),
        has_receiver_index(transport_bytes(receiver_index, nonce, ciphertext)),
        index_field(transport_bytes(receiver_index, nonce, ciphertext)) == receiver_index,
        nonce_field(transport_bytes(receiver_index, nonce, ciphertext)) == nonce,
        ciphertext_field(transport_bytes(receiver_index, nonce, ciphertext)) == ciphertext,
        transport_bytes(receiver_index, nonce, ciphertext).len() == TRANSPORT_PAYLOAD_OFFSET
            + ciphertext.len(),
{
    let p = transport_bytes(receiver_index, nonce, ciphertext);
    lemma_u32_le_roundtrip(receiver_index);
    lemma_u64_le_roundtrip(nonce);
    assert(p.subrange(4, 8) =~= u32_le_bytes(receiver_index));
    assert(p.subrange(8, 16) =~= u64_le_bytes(nonce));
    assert(ciphertext_field(p) =~= ciphertext);
}

} // verus!
