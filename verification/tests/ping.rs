use beginning_linux_programming::byte_order::ByteOrder;
use beginning_linux_programming::ping::{
    PingHeader, PingPacket, ECHO_REQUEST_TYPE, PACKET_LEN, PING_CHECKSUM,
};

#[test]
fn echo_request_header_image() {
    let header = PingHeader::echo_request();
    assert_eq!(header.type_, ECHO_REQUEST_TYPE);
    assert_eq!(header.to_bytes(ByteOrder::Little), vec![8, 0, 0, 0, 0, 0, 0, 0]);
    assert_eq!(header.to_bytes(ByteOrder::Big), vec![8, 0, 0, 0, 0, 0, 0, 0]);
}

#[test]
fn ping_packet_image() {
    let packet = PingPacket::echo_request();
    assert_eq!(packet.header.checksum, PING_CHECKSUM);
    let little = packet.to_bytes(ByteOrder::Little);
    assert_eq!(little.len(), PACKET_LEN);
    assert_eq!(&little[..8], &[8, 0, 0x3f, 0xf4, 0, 0, 0, 0]);
    assert_eq!(&little[8..18], b"0123456789");
    assert_eq!(little[8 + 54], b'0' + 54);
    assert_eq!(little[63], 0);
    let big = packet.to_bytes(ByteOrder::Big);
    assert_eq!(&big[..8], &[8, 0, 0xf4, 0x3f, 0, 0, 0, 0]);
    assert_eq!(&big[8..], &little[8..]);
}
