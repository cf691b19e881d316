use beginning_linux_programming::byte_order::htons;
use beginning_linux_programming::tcp_server::MyTcpServer;

#[test]
fn a_new_server_has_no_socket() {
    let server = MyTcpServer::new(true);
    assert_eq!(server.server_sockfd(), -1);
    assert!(server.is_non_blocking());
    assert_eq!(server.port(), 8080);
    assert_eq!(server.socket_to_close(), None);
}

#[test]
fn the_listening_socket_is_closed_at_the_end() {
    let mut server = MyTcpServer::new(false);
    server.set_listening(5);
    assert_eq!(server.server_sockfd(), 5);
    assert!(!server.is_non_blocking());
    assert_eq!(server.socket_to_close(), Some(5));
}

#[test]
fn the_bound_address_ignores_the_port() {
    let mut server = MyTcpServer::new(false);
    server.set_port(9000);
    assert_eq!(server.port(), 9000);
    let addr = server.bind_address();
    assert_eq!(addr.sin_port, htons(8080));
    assert_eq!(addr.sin_addr, 0);
    assert_eq!(addr.sin_family, 2);
}
