use sanzu_common::error::Error;
use sanzu_common::stream::{Loopback, ReadWrite, Recorded, Transport};
use sanzu_common::tunnel::{Tunnel, HEADER_LEN, MAX_PACKET_LEN, VERSION};

/// A stream whose peer is gone: nothing can be read or written.
struct Closed;

impl Transport for Closed {
    fn read_exact(&mut self, _len: usize) -> Result<Vec<u8>, Error> {
        Err(Error::msg("connection reset"))
    }

    fn write_all(&mut self, _bytes: &[u8]) -> Result<(), Error> {
        Err(Error::msg("broken pipe"))
    }
}

#[test]
fn constants_have_their_documented_values() {
    assert_eq!(MAX_PACKET_LEN, 104_857_600);
    assert_eq!(HEADER_LEN, 8);
    assert_eq!(VERSION, "0.1.1");
}

#[test]
fn frame_prefixes_the_length_in_little_endian() {
    let bytes = Tunnel::frame(&[0xaa, 0xbb, 0xcc]);
    assert_eq!(bytes, vec![3, 0, 0, 0, 0, 0, 0, 0, 0xaa, 0xbb, 0xcc]);
}

#[test]
fn frame_of_nothing_is_a_header_of_zero() {
    assert_eq!(Tunnel::frame(&[]), vec![0u8; 8]);
}

#[test]
fn frame_length_uses_the_higher_bytes() {
    let payload = vec![7u8; 0x0102];
    let bytes = Tunnel::frame(&payload);
    assert_eq!(&bytes[..8], &[0x02, 0x01, 0, 0, 0, 0, 0, 0]);
    assert_eq!(&bytes[8..], &payload[..]);
}

#[test]
fn send_frame_writes_the_frame_in_full() {
    let mut stream = Loopback::new();
    Tunnel::send_frame(&mut stream, &[9, 8, 7]).unwrap();
    assert_eq!(stream.written(), vec![3, 0, 0, 0, 0, 0, 0, 0, 9, 8, 7]);
    assert_eq!(stream.available(), 11);
}

#[test]
fn send_frame_then_recv_frame_returns_the_payload() {
    let mut stream = Loopback::new();
    Tunnel::send_frame(&mut stream, &[1, 2, 3, 4, 5]).unwrap();
    let payload = Tunnel::recv_frame(&mut stream).unwrap();
    assert_eq!(payload, vec![1, 2, 3, 4, 5]);
    assert_eq!(stream.available(), 0);
}

#[test]
fn frames_come_back_in_the_order_sent() {
    let mut stream = Loopback::new();
    Tunnel::send_frame(&mut stream, b"first").unwrap();
    Tunnel::send_frame(&mut stream, b"").unwrap();
    Tunnel::send_frame(&mut stream, b"third").unwrap();
    assert_eq!(Tunnel::recv_frame(&mut stream).unwrap(), b"first".to_vec());
    assert_eq!(Tunnel::recv_frame(&mut stream).unwrap(), Vec::<u8>::new());
    assert_eq!(Tunnel::recv_frame(&mut stream).unwrap(), b"third".to_vec());
}

#[test]
fn send_frame_on_a_closed_stream_fails_under_its_layer() {
    let err = Tunnel::send_frame(&mut Recorded::new(Closed), &[1]).unwrap_err();
    assert_eq!(err.chain(), vec!["Cannot write pkt".to_string(), "broken pipe".to_string()]);
}

#[test]
fn recv_frame_on_a_closed_stream_fails_under_its_layer() {
    let err = Tunnel::recv_frame(&mut Recorded::new(Closed)).unwrap_err();
    assert_eq!(err.chain(), vec!["Cannot read pkt".to_string(), "connection reset".to_string()]);
}

#[test]
fn body_len_reads_the_header_least_significant_byte_first() {
    assert_eq!(Tunnel::body_len(vec![0x34, 0x12, 0, 0, 0, 0, 0, 0]).unwrap(), 0x1234);
    assert_eq!(Tunnel::body_len(vec![0; 8]).unwrap(), 0);
}

#[test]
fn body_len_admits_the_bound_and_refuses_one_more() {
    let at_bound = (MAX_PACKET_LEN as u64).to_le_bytes().to_vec();
    assert_eq!(Tunnel::body_len(at_bound).unwrap(), MAX_PACKET_LEN);
    let above = (MAX_PACKET_LEN as u64 + 1).to_le_bytes().to_vec();
    let err = Tunnel::body_len(above).unwrap_err();
    assert_eq!(err.chain(), vec!["Packet too big!".to_string()]);
}

#[test]
fn body_len_refuses_a_length_beyond_32_bits() {
    let err = Tunnel::body_len(vec![0, 0, 0, 0, 1, 0, 0, 0]).unwrap_err();
    assert_eq!(err.chain(), vec!["Packet too big!".to_string()]);
    let err = Tunnel::body_len(vec![0xff; 8]).unwrap_err();
    assert_eq!(err.chain(), vec!["Packet too big!".to_string()]);
}

#[test]
fn body_len_of_a_short_header_cannot_read_the_length() {
    let err = Tunnel::body_len(vec![1, 2, 3]).unwrap_err();
    assert_eq!(err.depth(), 2);
    assert_eq!(err.outermost(), "Cannot read len");
}

#[test]
fn oversized_claim_is_refused_without_reading_the_body() {
    let mut stream = Loopback::new();
    stream.write_all(&209_715_200u64.to_le_bytes()).unwrap();
    stream.write_all(b"what follows is never read").unwrap();
    let err = Tunnel::recv_frame(&mut stream).unwrap_err();
    assert_eq!(err.chain(), vec!["Packet too big!".to_string()]);
    assert_eq!(stream.available(), 26);
}

#[test]
fn oversized_claim_with_nothing_behind_it_does_not_wait_for_more() {
    let mut stream = Loopback::new();
    stream.write_all(&209_715_200u64.to_le_bytes()).unwrap();
    let err = Tunnel::recv_frame(&mut stream).unwrap_err();
    assert_eq!(err.outermost(), "Packet too big!");
}

#[test]
fn truncated_header_is_a_read_failure() {
    let mut stream = Loopback::new();
    stream.write_all(&[5, 0, 0]).unwrap();
    let err = Tunnel::recv_frame(&mut stream).unwrap_err();
    assert_eq!(
        err.chain(),
        vec!["Cannot read pkt".to_string(), "failed to fill whole buffer".to_string()]
    );
}

#[test]
fn truncated_body_is_a_read_failure() {
    let mut stream = Loopback::new();
    stream.write_all(&[5, 0, 0, 0, 0, 0, 0, 0, 1, 2, 3]).unwrap();
    let err = Tunnel::recv_frame(&mut stream).unwrap_err();
    assert_eq!(
        err.chain(),
        vec!["Cannot read pkt".to_string(), "failed to fill whole buffer".to_string()]
    );
}
