use wireguard::types::addr::{Endpoint, IpAddress, V4_MAPPED_PREFIX};
use wireguard::udp::frame::{new, FrameError, StartSend, UdpCodec, VecUdpCodec};

fn v4(a: u8, b: u8, c: u8, d: u8) -> u32 {
    u32::from_be_bytes([a, b, c, d])
}

#[test]
fn mapped_address_is_unmapped() {
    let mapped = IpAddress::V6(0xffff_0102_0304);
    assert_eq!(mapped.to_unmapped(), IpAddress::V4(v4(1, 2, 3, 4)));
    assert_eq!(V4_MAPPED_PREFIX, 0xffff_0000_0000);
}

#[test]
fn compatible_address_is_unmapped() {
    assert_eq!(IpAddress::V6(0x0a00_0001).to_unmapped(), IpAddress::V4(v4(10, 0, 0, 1)));
    assert_eq!(IpAddress::V6(1).to_unmapped(), IpAddress::V4(1));
    assert_eq!(IpAddress::V6(0).to_unmapped(), IpAddress::V4(0));
}

#[test]
fn other_addresses_stay() {
    let global = IpAddress::V6(0x2001_0db8_0000_0000_0000_0000_0000_0001);
    assert_eq!(global.to_unmapped(), global);
    let near = IpAddress::V6(0xfffe_0102_0304);
    assert_eq!(near.to_unmapped(), near);
    let high = IpAddress::V6(0x1_0000_ffff_0102_0304);
    assert_eq!(high.to_unmapped(), high);
    let plain = IpAddress::V4(v4(192, 168, 0, 1));
    assert_eq!(plain.to_unmapped(), plain);
    assert_eq!(global.to_mapped(), global);
}

#[test]
fn v4_maps_into_v6() {
    assert_eq!(IpAddress::V4(v4(1, 2, 3, 4)).to_mapped(), IpAddress::V6(0xffff_0102_0304));
    assert_eq!(IpAddress::V4(u32::MAX).to_mapped(), IpAddress::V6(0xffff_ffff_ffff));
    assert_eq!(IpAddress::V4(0).to_mapped(), IpAddress::V6(0xffff_0000_0000));
    let back = IpAddress::V4(v4(9, 8, 7, 6)).to_mapped().to_unmapped();
    assert_eq!(back, IpAddress::V4(v4(9, 8, 7, 6)));
}

#[test]
fn codec_decodes_bytes_as_they_are() {
    let mut codec = VecUdpCodec;
    let src = Endpoint { ip: IpAddress::V6(0xffff_7f00_0001), port: 51820 };
    let (addr, data) = codec.decode(&src, &[1, 2, 3]).unwrap();
    assert_eq!(addr, Endpoint { ip: IpAddress::V4(v4(127, 0, 0, 1)), port: 51820 });
    assert_eq!(data, vec![1, 2, 3]);
}

#[test]
fn codec_encodes_behind_what_is_there() {
    let mut codec = VecUdpCodec;
    let mut buf = vec![9u8];
    let dest = Endpoint { ip: IpAddress::V4(v4(10, 1, 2, 3)), port: 7 };
    let addr = codec.encode((dest, vec![4, 5]), &mut buf);
    assert_eq!(addr, Endpoint { ip: IpAddress::V6(0xffff_0a01_0203), port: 7 });
    assert_eq!(buf, vec![9, 4, 5]);
}

#[test]
fn framed_sends_one_datagram_at_a_time() {
    let mut framed = new(VecUdpCodec);
    assert!(framed.unsent().is_none());
    let dest = Endpoint { ip: IpAddress::V4(v4(10, 0, 0, 2)), port: 1 };
    assert!(matches!(framed.start_send((dest, vec![1, 2, 3])), StartSend::Ready));
    {
        let (bytes, addr) = framed.unsent().unwrap();
        assert_eq!(bytes, &[1, 2, 3]);
        assert_eq!(addr, Endpoint { ip: IpAddress::V6(0xffff_0a00_0002), port: 1 });
    }
    match framed.start_send((dest, vec![7])) {
        StartSend::NotReady(back) => assert_eq!(back, (dest, vec![7])),
        StartSend::Ready => panic!("a second frame was taken"),
    }
    assert_eq!(framed.unsent().unwrap().0, &[1, 2, 3]);
    assert_eq!(framed.poll_complete(3), Ok(()));
    assert!(framed.unsent().is_none());
    assert!(matches!(framed.start_send((dest, vec![7])), StartSend::Ready));
    assert_eq!(framed.unsent().unwrap().0, &[7]);
}

#[test]
fn short_write_loses_the_frame() {
    let mut framed = new(VecUdpCodec);
    let dest = Endpoint { ip: IpAddress::V6(5), port: 2 };
    assert!(matches!(framed.start_send((dest, vec![1, 2, 3, 4])), StartSend::Ready));
    assert_eq!(framed.poll_complete(2), Err(FrameError::ShortWrite));
    assert!(framed.unsent().is_none());
    assert_eq!(framed.poll_complete(0), Ok(()));
    assert!(matches!(framed.start_send((dest, vec![])), StartSend::Ready));
    assert_eq!(framed.close(0), Ok(()));
    assert!(matches!(framed.start_send((dest, vec![1])), StartSend::Ready));
    assert_eq!(framed.close(5), Err(FrameError::ShortWrite));
}

#[test]
fn framed_decodes_through_its_codec() {
    let mut framed = new(VecUdpCodec);
    let src = Endpoint { ip: IpAddress::V6(0xffff_0101_0101), port: 9 };
    let (addr, data) = framed.poll(&src, &[0xde, 0xad]).unwrap();
    assert_eq!(addr.ip, IpAddress::V4(v4(1, 1, 1, 1)));
    assert_eq!(addr.port, 9);
    assert_eq!(data, vec![0xde, 0xad]);
    assert!(framed.unsent().is_none());
}

/// A codec of frames that are one byte long.
struct ByteCodec;

impl UdpCodec for ByteCodec {
    type In = u8;
    type Out = (Endpoint, u8);

    fn decode(&mut self, _src: &Endpoint, buf: &[u8]) -> Result<u8, FrameError> {
        if buf.len() == 1 {
            Ok(buf[0])
        } else {
            Err(FrameError::Malformed)
        }
    }

    fn encode(&mut self, msg: (Endpoint, u8), buf: &mut Vec<u8>) -> Endpoint {
        buf.push(msg.1);
        msg.0
    }
}

#[test]
fn codec_may_refuse_a_datagram() {
    let mut framed = new(ByteCodec);
    let src = Endpoint { ip: IpAddress::V4(1), port: 1 };
    assert_eq!(framed.poll(&src, &[7]), Ok(7));
    assert_eq!(framed.poll(&src, &[7, 8]), Err(FrameError::Malformed));
    assert_eq!(framed.poll(&src, &[]), Err(FrameError::Malformed));
    assert!(matches!(framed.start_send((src, 9)), StartSend::Ready));
    let (bytes, addr) = framed.unsent().unwrap();
    assert_eq!(bytes, &[9]);
    assert_eq!(addr, src);
}
