//! Framing of datagrams. The socket itself is the caller's: it hands in
//! what it received and reports what it sent.

use crate::protocol::wire::copy_range;
use crate::types::addr::Endpoint;
use vstd::prelude::*;

verus! {

/// Why a frame was lost.
#[derive(Debug, Clone, Copy, PartialEq, Eq, Structural)]
pub enum FrameError {
    /// The socket took only a part of the datagram.
    ShortWrite,
    /// The codec could not decode the datagram.
    Malformed,
}

/// Encoding of frames into datagrams and back.
///
/// UDP has no connections: `decode` is given the address that the datagram
/// came from, and `encode` says where the datagram is to go.
pub trait UdpCodec {
    /// The type of decoded frames.
    type In;

    /// The type of frames to be encoded.
    type Out;

    /// Whether `frame` is what this codec decodes a datagram from `src` to.
    /// A codec that says nothing of itself leaves this as it is.
    open spec fn decodes_to(
        &self,
        src: Endpoint,
        buf: Seq<u8>,
        frame: Result<Self::In, FrameError>,
    ) -> bool {
        true
    }

    /// Whether `bytes`, for the address `addr`, is what this codec encodes
    /// a frame to. A codec that says nothing of itself leaves this as it is.
    open spec fn encodes_to(&self, msg: Self::Out, addr: Endpoint, bytes: Seq<u8>) -> bool {
        true
    }

    /// Decodes a frame from one datagram that came from `src`.
    fn decode(&mut self, src: &Endpoint, buf: &[u8]) -> (frame: Result<Self::In, FrameError>)
        ensures
            old(self).decodes_to(*src, buf@, frame),
    ;

    /// Encodes a frame: appends its bytes to `buf` and returns the address
    /// that the datagram goes to.
    fn encode(&mut self, msg: Self::Out, buf: &mut Vec<u8>) -> (addr: Endpoint)
        ensures
            final(buf)@.len() >= old(buf)@.len(),
            final(buf)@.subrange(0, old(buf)@.len() as int) == old(buf)@,
            old(self).encodes_to(
                msg,
                addr,
                final(buf)@.subrange(old(buf)@.len() as int, final(buf)@.len() as int),
            ),
    ;
}

/// What the peer server exchanges with the network: an address and the
/// bytes of one datagram.
pub type PeerServerMessage = (Endpoint, Vec<u8>);

/// The codec of the peer server: a frame is the datagram's bytes as they
/// are. The socket speaks IPv6 only, so an IPv4 address leaves in its
/// IPv4-mapped form and comes back out of it.
pub struct VecUdpCodec;

impl VecUdpCodec {
    /// The address that a datagram from `src` is reported under.
    pub open spec fn decoded_addr(src: Endpoint) -> Endpoint {
        Endpoint { ip: src.ip.unmapped(), port: src.port }
    }

    /// The address that a datagram for `addr` is sent to.
    pub open spec fn encoded_addr(addr: Endpoint) -> Endpoint {
        Endpoint { ip: addr.ip.mapped(), port: addr.port }
    }
}

impl UdpCodec for VecUdpCodec {
    type In = PeerServerMessage;

    type Out = PeerServerMessage;

    /// Every datagram decodes: to its bytes, from its sender's address
    /// with an embedded IPv4 address taken out.
    open spec fn decodes_to(
        &self,
        src: Endpoint,
        buf: Seq<u8>,
        frame: Result<PeerServerMessage, FrameError>,
    ) -> bool {
        frame matches Ok(message) && message.0 == VecUdpCodec::decoded_addr(src) && message.1@
            == buf
    }

    /// A frame encodes to its bytes, for its address in IPv6 form.
    open spec fn encodes_to(&self, msg: PeerServerMessage, addr: Endpoint, bytes: Seq<u8>) -> bool {
        addr == VecUdpCodec::encoded_addr(msg.0) && bytes == msg.1@
    }

    fn decode(&mut self, src: &Endpoint, buf: &[u8]) -> (frame: Result<
        PeerServerMessage,
        FrameError,
    >) {
        let addr = Endpoint { ip: src.ip.to_unmapped(), port: src.port };
        let bytes = copy_range(buf, 0, buf.len());
        assert(bytes@ =~= buf@);
        Ok((addr, bytes))
    }

    fn encode(&mut self, msg: PeerServerMessage, buf: &mut Vec<u8>) -> (addr: Endpoint) {
        let (addr, mut data) = msg;
        buf.append(&mut data);
        assert((old(buf)@ + msg.1@).subrange(0, old(buf)@.len() as int) =~= old(buf)@);
        assert((old(buf)@ + msg.1@).subrange(
            old(buf)@.len() as int,
            (old(buf)@ + msg.1@).len() as int,
        ) =~= msg.1@);
        Endpoint { ip: addr.ip.to_mapped(), port: addr.port }
    }
}

/// Whether a frame was taken for sending.
pub enum StartSend<T> {
    /// The frame is encoded and waits to be sent.
    Ready,
    /// An earlier frame still waits to be sent; the frame is handed back.
    NotReady(T),
}

/// The framing layer between a codec and a socket: one encoded frame waits
/// in the write buffer until the socket has taken it.
pub struct UdpFramed<C> {
    codec: C,
    wr: Vec<u8>,
    out_addr: Endpoint,
    flushed: bool,
}

/// The address that nothing has been sent to yet: `0.0.0.0:0`.
pub open spec fn unspecified() -> Endpoint {
    Endpoint { ip: crate::types::addr::IpAddress::V4(0), port: 0 }
}

/// A framing layer around a codec, with nothing to send.
pub fn new<C: UdpCodec>(codec: C) -> (framed: UdpFramed<C>)
    ensures
        framed.codec() == codec,
        framed.pending().is_none(),
        framed.out_addr() == unspecified(),
{
    UdpFramed {
        codec,
        wr: Vec::new(),
        out_addr: Endpoint { ip: crate::types::addr::IpAddress::V4(0), port: 0 },
        flushed: true,
    }
}

impl<C> UdpFramed<C> {
    /// The datagram that waits to be sent, if one does.
    pub closed spec fn pending(&self) -> Option<Seq<u8>> {
        if self.flushed {
            None
        } else {
            Some(self.wr@)
        }
    }

    /// The address that the last frame encoded goes to.
    pub closed spec fn out_addr(&self) -> Endpoint {
        self.out_addr
    }

    /// The codec.
    pub closed spec fn codec(&self) -> C {
        self.codec
    }

    /// The datagram that waits to be sent, and where it goes.
    pub fn unsent(&self) -> (datagram: Option<(&[u8], Endpoint)>)
        ensures
            match self.pending() {
                Some(bytes) => datagram matches Some(d) && d.0@ == bytes && d.1 == self.out_addr(),
                None => datagram.is_none(),
            },
    {
        if self.flushed {
            None
        } else {
            Some((self.wr.as_slice(), self.out_addr))
        }
    }

    /// Takes the socket's report of how many bytes of the waiting datagram
    /// it sent. The datagram is done with either way; where the socket did
    /// not take all of it, the frame is lost and the loss reported. With
    /// nothing waiting there is nothing to do.
    pub fn poll_complete(&mut self, written: usize) -> (done: Result<(), FrameError>)
        ensures
            final(self).pending().is_none(),
            final(self).out_addr() == old(self).out_addr(),
            final(self).codec() == old(self).codec(),
            done.is_err() <==> (old(self).pending() matches Some(bytes) && written != bytes.len()),
            done matches Err(e) ==> e == FrameError::ShortWrite,
    {
        if self.flushed {
            return Ok(());
        }
        let wrote_all = written == self.wr.len();
        self.wr.clear();
        self.flushed = true;
        if wrote_all {
            Ok(())
        } else {
            Err(FrameError::ShortWrite)
        }
    }
}

impl<C: UdpCodec> UdpFramed<C> {
    /// Decodes a datagram that the socket received from `addr`.
    pub fn poll(&mut self, addr: &Endpoint, datagram: &[u8]) -> (frame: Result<C::In, FrameError>)
        ensures
            old(self).codec().decodes_to(*addr, datagram@, frame),
            final(self).pending() == old(self).pending(),
            final(self).out_addr() == old(self).out_addr(),
    {
        self.codec.decode(addr, datagram)
    }

    /// Takes a frame for sending, unless an earlier one still waits: then
    /// the frame is handed back, and the caller sends what waits first.
    pub fn start_send(&mut self, item: C::Out) -> (taken: StartSend<C::Out>)
        ensures
            match old(self).pending() {
                Some(bytes) => taken matches StartSend::NotReady(back) && back == item
                    && final(self).pending() == Some(bytes) && final(self).out_addr() == old(
                    self,
                ).out_addr() && final(self).codec() == old(self).codec(),
                None => taken is Ready && (final(self).pending() matches Some(bytes) && old(
                    self,
                ).codec().encodes_to(item, final(self).out_addr(), bytes)),
            },
    {
        if !self.flushed {
            return StartSend::NotReady(item);
        }
        self.wr.clear();
        self.out_addr = self.codec.encode(item, &mut self.wr);
        self.flushed = false;
        assert(self.wr@.subrange(0, self.wr@.len() as int) =~= self.wr@);
        StartSend::Ready
    }

    /// Closes the layer: as `poll_complete`, for the last datagram.
    pub fn close(&mut self, written: usize) -> (done: Result<(), FrameError>)
        ensures
            final(self).pending().is_none(),
            final(self).out_addr() == old(self).out_addr(),
            final(self).codec() == old(self).codec(),
            done.is_err() <==> (old(self).pending() matches Some(bytes) && written != bytes.len()),
            done matches Err(e) ==> e == FrameError::ShortWrite,
    {
        self.poll_complete(written)
    }
}

} // verus!
