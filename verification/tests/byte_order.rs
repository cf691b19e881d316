use beginning_linux_programming::byte_order::{
    classify_byte_order, from_be_bytes_u32, host_byte_order, htonl, htons, ntohl, ntohs,
    ByteOrder,
};

/// The memory image of the integer 1 tells the host's byte order.
#[test]
fn get_host_byte_order() {
    let bytes = 1u32.to_ne_bytes();
    // network byte order == bigger endian
    if classify_byte_order(bytes) == Some(ByteOrder::Big) {
        println!("bigger endian == MSB");
    }
    if classify_byte_order(bytes) == Some(ByteOrder::Little) {
        println!("little endian == LSB");
    }
}

#[test]
fn host_byte_order_matches_memory_image() {
    let bytes = 1u32.to_ne_bytes();
    assert_eq!(classify_byte_order(bytes), Some(host_byte_order()));
}

#[test]
fn classify_byte_order_patterns() {
    assert_eq!(classify_byte_order([0, 0, 0, 1]), Some(ByteOrder::Big));
    assert_eq!(classify_byte_order([1, 0, 0, 0]), Some(ByteOrder::Little));
    assert_eq!(classify_byte_order([0, 1, 0, 0]), None);
    assert_eq!(classify_byte_order([1, 0, 0, 1]), None);
}

#[test]
fn htons_lays_out_port_big_endian() {
    let order = host_byte_order();
    assert_eq!(order.bytes_u16(htons(8080)), [0x1f, 0x90]);
    assert_eq!(htons(8080), 8080u16.to_be());
}

#[test]
fn htonl_lays_out_address_big_endian() {
    let order = host_byte_order();
    assert_eq!(order.bytes_u32(htonl(0x7f00_0001)), [127, 0, 0, 1]);
    assert_eq!(htonl(0x1234_5678), 0x1234_5678u32.to_be());
}

#[test]
fn network_conversion_round_trips() {
    for x in [0u16, 1, 0x00ff, 0x1f90, 0xabcd, u16::MAX] {
        assert_eq!(ntohs(htons(x)), x);
        assert_eq!(htons(ntohs(x)), x);
    }
    for x in [0u32, 1, 0x7f00_0001, 0xdead_beef, u32::MAX] {
        assert_eq!(ntohl(htonl(x)), x);
        assert_eq!(htonl(ntohl(x)), x);
    }
}

#[test]
fn little_endian_conversion_swaps_bytes() {
    assert_eq!(ByteOrder::Little.to_network_u16(0x1f90), 0x901f);
    assert_eq!(ByteOrder::Little.to_network_u32(0x1234_5678), 0x7856_3412);
    assert_eq!(ByteOrder::Little.from_network_u32(0x7856_3412), 0x1234_5678);
    assert_eq!(ByteOrder::Little.bytes_u32(0x1234_5678), [0x78, 0x56, 0x34, 0x12]);
    assert_eq!(ByteOrder::Little.bytes_u16(0x1f90), [0x90, 0x1f]);
}

#[test]
fn big_endian_conversion_is_identity() {
    assert_eq!(ByteOrder::Big.to_network_u16(0x1f90), 0x1f90);
    assert_eq!(ByteOrder::Big.to_network_u32(0x1234_5678), 0x1234_5678);
    assert_eq!(ByteOrder::Big.from_network_u16(0x1f90), 0x1f90);
    assert_eq!(ByteOrder::Big.bytes_u32(0x1234_5678), [0x12, 0x34, 0x56, 0x78]);
}

#[test]
fn from_be_bytes_reads_most_significant_first() {
    assert_eq!(from_be_bytes_u32([127, 0, 0, 1]), 0x7f00_0001);
    // inet_aton("127.0.0.1") read as a number
    assert_eq!(from_be_bytes_u32([127, 0, 0, 1]), 2_130_706_433);
    assert_eq!(from_be_bytes_u32([0xde, 0xad, 0xbe, 0xef]), 0xdead_beef);
}
