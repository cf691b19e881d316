use beginning_linux_programming::terminal::{classify_getopt, disable_echo, GetoptEvent};

#[test]
fn echo_flag_is_cleared_and_the_rest_kept() {
    assert_eq!(disable_echo(0x8a3b), 0x8a33);
    assert_eq!(disable_echo(0x8a33), 0x8a33);
    assert_eq!(disable_echo(0x8), 0);
    assert_eq!(disable_echo(u32::MAX), u32::MAX & !0x8);
}

#[test]
fn getopt_results() {
    assert_eq!(classify_getopt(-1), Some(GetoptEvent::End));
    assert_eq!(classify_getopt(i32::from(b'i')), Some(GetoptEvent::Flag(b'i')));
    assert_eq!(classify_getopt(i32::from(b'l')), Some(GetoptEvent::Flag(b'l')));
    assert_eq!(classify_getopt(i32::from(b'r')), Some(GetoptEvent::Flag(b'r')));
    assert_eq!(classify_getopt(i32::from(b'f')), Some(GetoptEvent::Filename));
    assert_eq!(classify_getopt(i32::from(b':')), Some(GetoptEvent::MissingValue));
    assert_eq!(classify_getopt(i32::from(b'?')), Some(GetoptEvent::Unknown));
    assert_eq!(classify_getopt(i32::from(b'q')), None);
}
