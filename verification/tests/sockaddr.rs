use beginning_linux_programming::byte_order::{host_byte_order, htons};
use beginning_linux_programming::sockaddr::{
    daytime_server_addr, in_addr_from_entry, local_server_addr, ping_target_addr, server_default_sockaddr_in,
    uppercase_reply, DEFAULT_SERVER_PORT, SERVER_SOCKET_FILENAME, SUN_PATH_LEN,
};

#[test]
fn default_server_address() {
    let addr = server_default_sockaddr_in();
    assert_eq!(addr.sin_family, 2);
    assert_eq!(addr.sin_addr, 0);
    assert_eq!(addr.sin_port, htons(DEFAULT_SERVER_PORT));
    assert_eq!(host_byte_order().bytes_u16(addr.sin_port), [0x1f, 0x90]);
}

#[test]
fn daytime_address() {
    // getservbyname gives the telnet port 23 in network byte order
    let addr = daytime_server_addr(i32::from(htons(23)));
    assert_eq!(addr.sin_family, 2);
    assert_eq!(addr.sin_port, htons(23));
    assert_eq!(addr.sin_port.to_ne_bytes(), [0x00, 0x17]);
    assert_eq!(addr.sin_addr.to_ne_bytes(), [127, 0, 0, 1]);
    assert_eq!(host_byte_order().bytes_u32(addr.sin_addr), [127, 0, 0, 1]);
    // only the low 16 bits of the service port are kept
    assert_eq!(daytime_server_addr(0x1_0017).sin_port, 0x17);
}

#[test]
fn ping_target_address() {
    let addr = ping_target_addr(0x0100_007f);
    assert_eq!(addr.sin_family, 2);
    assert_eq!(addr.sin_port, 0);
    assert_eq!(addr.sin_addr, 0x0100_007f);
}

#[test]
fn host_entry_address_keeps_its_bytes_in_memory() {
    let s_addr = in_addr_from_entry([192, 168, 1, 20]);
    assert_eq!(host_byte_order().bytes_u32(s_addr), [192, 168, 1, 20]);
    assert_eq!(s_addr.to_ne_bytes(), [192, 168, 1, 20]);
}

#[test]
fn local_socket_address() {
    let addr = local_server_addr();
    assert_eq!(addr.sun_family, 1);
    assert_eq!(addr.sun_path.len(), SUN_PATH_LEN);
    assert_eq!(&addr.sun_path[..14], b"server_socket\0");
    assert_eq!(&addr.sun_path[..14], &SERVER_SOCKET_FILENAME[..]);
    assert!(addr.sun_path[14..].iter().all(|b| *b == 0));
}

#[test]
fn uppercase_reply_matches_std() {
    assert_eq!(uppercase_reply(b'a'), b'A');
    assert_eq!(uppercase_reply(b'z'), b'Z');
    assert_eq!(uppercase_reply(b'A'), b'A');
    assert_eq!(uppercase_reply(b'1'), b'1');
    for b in 0..=255u8 {
        assert_eq!(uppercase_reply(b), b.to_ascii_uppercase());
    }
}
