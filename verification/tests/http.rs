use beginning_linux_programming::http::http_ok_header;

#[test]
fn http_header_announces_the_length() {
    assert_eq!(http_ok_header(12), b"HTTP/1.1 200 OK\r\nContent-Length: 12\r\n\r\n".to_vec());
    assert_eq!(http_ok_header(0), b"HTTP/1.1 200 OK\r\nContent-Length: 0\r\n\r\n".to_vec());
}

#[test]
fn http_header_matches_format() {
    for n in [1u64, 99, 100, 4096, 123_456_789, u64::MAX] {
        let expected = format!("HTTP/1.1 200 OK\r\nContent-Length: {}\r\n\r\n", n);
        assert_eq!(http_ok_header(n), expected.into_bytes());
    }
}
