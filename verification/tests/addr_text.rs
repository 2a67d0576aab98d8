use udpsock::addr::{Addr, AddrV4, AddrV6};
use udpsock::err::SockError;

#[test]
fn v4_text_exact() {
    let a = AddrV4 { octets: [127, 0, 0, 1], port: 8080 };
    assert_eq!(a.to_text(), "127.0.0.1:8080");
}

#[test]
fn v4_text_zero_and_max() {
    let z = AddrV4 { octets: [0, 0, 0, 0], port: 0 };
    assert_eq!(z.to_text(), "0.0.0.0:0");
    let m = AddrV4 { octets: [255, 255, 255, 255], port: 65535 };
    assert_eq!(m.to_text(), "255.255.255.255:65535");
}

#[test]
fn v6_text_loopback() {
    let mut o = [0u8; 16];
    o[15] = 1;
    let a = AddrV6 { octets: o, port: 443, scope: 0 };
    assert_eq!(a.to_text(), "[0000:0000:0000:0000:0000:0000:0000:0001]:443");
}

#[test]
fn v6_text_hex_groups() {
    let o = [
        0x20, 0x01, 0x0d, 0xb8, 0xab, 0xcd, 0xef, 0x01, 0x23, 0x45, 0x67, 0x89, 0x9a, 0xbc, 0xde,
        0xf0,
    ];
    let a = AddrV6 { octets: o, port: 1, scope: 5 };
    assert_eq!(a.to_text(), "[2001:0db8:abcd:ef01:2345:6789:9abc:def0]:1");
}

#[test]
fn unix_text_is_the_path() {
    let a = Addr::Unix(String::from("/tmp/some.sock"));
    assert_eq!(a.to_text(), "/tmp/some.sock");
}

#[test]
fn error_messages_exact() {
    assert_eq!(SockError::WouldBlock.message(), "operation would block");
    let a = SockError::AddrNotAvailable { addr_text: String::from("x:1") };
    assert_eq!(a.message(), "address not available: x:1");
    let c = SockError::Conversion { message: String::from("m") };
    assert_eq!(c.message(), "socket conversion failed: m");
    let p = SockError::Poller { message: String::from("m") };
    assert_eq!(p.message(), "poller error: m");
    let o = SockError::Os { message: String::from("m") };
    assert_eq!(o.message(), "m");
}

#[test]
fn would_block_is_told_apart() {
    assert!(SockError::WouldBlock.is_would_block());
    let o = SockError::Os { message: String::from("m") };
    assert!(!o.is_would_block());
}
