use udpsock::addr::{Addr, AddrV4, AddrV6};
use udpsock::err::SockError;
use udpsock::{managed, raw};

fn v4_dgram() -> (socket2::Domain, socket2::Type, socket2::Protocol) {
    (socket2::Domain::ipv4(), socket2::Type::dgram(), socket2::Protocol::udp())
}

fn v6_dgram() -> (socket2::Domain, socket2::Type, socket2::Protocol) {
    (socket2::Domain::ipv6(), socket2::Type::dgram(), socket2::Protocol::udp())
}

// The local (unix-domain) family: datagrams over it need no IP routing,
// so the traffic scenarios below run on it. Abstract names (leading NUL)
// leave nothing on the file system between runs.
fn local_dgram() -> (socket2::Domain, socket2::Type, socket2::Protocol) {
    (socket2::Domain::from(1), socket2::Type::dgram(), socket2::Protocol::from(0))
}

/// A blocking unix-domain datagram listener under the given abstract name.
fn local_listener(name: &str) -> socket2::Socket {
    let l = socket2::Socket::new(socket2::Domain::from(1), socket2::Type::dgram(), None).unwrap();
    l.bind(&socket2::SockAddr::unix(name).unwrap()).unwrap();
    l
}

#[test]
fn raw_new_is_nonblocking_recv_would_block() {
    let (d, t, p) = v4_dgram();
    let s = raw::Socket::new(d, t, p).unwrap();
    let mut buf = vec![0u8; 32];
    match s.recv(&mut buf) {
        Err(e) => assert!(e.is_would_block()),
        Ok(_) => panic!("expected an immediate would-block, not data"),
    }
    assert_eq!(buf.len(), 32);
}

#[test]
fn managed_new_is_nonblocking_recv_would_block() {
    let (d, t, p) = v4_dgram();
    let s = managed::Socket::new(d, t, p).unwrap();
    let mut buf = vec![0u8; 32];
    match s.recv(&mut buf) {
        Err(e) => assert!(e.is_would_block()),
        Ok(_) => panic!("expected an immediate would-block, not data"),
    }
}

#[test]
fn construction_succeeds_for_both_families() {
    let (d4, t4, p4) = v4_dgram();
    raw::Socket::new(d4, t4, p4).unwrap();
    let (d6, t6, p6) = v6_dgram();
    raw::Socket::new(d6, t6, p6).unwrap();
    let (d4, t4, p4) = v4_dgram();
    managed::Socket::new(d4, t4, p4).unwrap();
    let (d6, t6, p6) = v6_dgram();
    managed::Socket::new(d6, t6, p6).unwrap();
}

#[test]
fn raw_round_trip_bytes_unchanged() {
    let name = "\u{0}udpsock-test-trip";
    let l = local_listener(name);
    let (d, t, p) = local_dgram();
    let s = raw::Socket::new(d, t, p).unwrap();
    let msg: Vec<u8> = (0..1024u32).map(|i| (i % 251) as u8).collect();
    let n = s.send_to(msg.as_slice(), &Addr::Unix(String::from(name))).unwrap();
    assert_eq!(n, msg.len());
    let mut got = vec![0u8; 4096];
    let m = l.recv(got.as_mut_slice()).unwrap();
    assert_eq!(m, msg.len());
    assert_eq!(&got[..m], msg.as_slice());
}

#[test]
fn raw_round_trip_empty_datagram() {
    let name = "\u{0}udpsock-test-empty";
    let l = local_listener(name);
    let (d, t, p) = local_dgram();
    let s = raw::Socket::new(d, t, p).unwrap();
    let n = s.send_to(&[], &Addr::Unix(String::from(name))).unwrap();
    assert_eq!(n, 0);
    let mut got = vec![0u8; 16];
    let m = l.recv(got.as_mut_slice()).unwrap();
    assert_eq!(m, 0);
}

#[test]
fn library_recv_returns_exactly_what_was_sent() {
    let name = "\u{0}udpsock-test-recv";
    let (d, t, p) = local_dgram();
    let s = raw::Socket::new(d, t, p).unwrap();
    s.as_socket().bind(&socket2::SockAddr::unix(name).unwrap()).unwrap();
    let helper = socket2::Socket::new(socket2::Domain::from(1), socket2::Type::dgram(), None)
        .unwrap();
    let msg = [9u8, 0, 255, 42];
    helper.send_to(&msg[..], &socket2::SockAddr::unix(name).unwrap()).unwrap();
    // A unix-domain send enqueues at the receiver before it returns, so the
    // non-blocking receive right after it sees the datagram.
    let mut got = vec![0u8; 64];
    let g = s.recv(&mut got).unwrap();
    assert_eq!(&got[..g], &msg[..]);
    assert_eq!(got.len(), 64);
    match s.recv(&mut got) {
        Err(e) => assert!(e.is_would_block()),
        Ok(_) => panic!("queue should be empty again"),
    }
}

#[test]
fn managed_classifies_inet_addresses_as_sendable() {
    let (d, t, p) = v4_dgram();
    let s = managed::Socket::new(d, t, p).unwrap();
    // Whether the packet is routable is the OS's business; what the
    // library owes is that a well-formed IPv4 or IPv6 endpoint is never
    // rejected as address-not-available.
    let v4 = Addr::V4(AddrV4 { octets: [127, 0, 0, 1], port: 9 });
    match s.send_to(&b"x"[..], &v4) {
        Ok(n) => assert_eq!(n, 1),
        Err(e) => assert!(!matches!(e, SockError::AddrNotAvailable { .. })),
    }
    let (d6, t6, p6) = v6_dgram();
    let s6 = managed::Socket::new(d6, t6, p6).unwrap();
    let mut octets = [0u8; 16];
    octets[15] = 1;
    let v6 = Addr::V6(AddrV6 { octets, port: 9, scope: 0 });
    match s6.send_to(&b"x"[..], &v6) {
        Ok(n) => assert_eq!(n, 1),
        Err(e) => assert!(!matches!(e, SockError::AddrNotAvailable { .. })),
    }
}

#[test]
fn managed_send_to_unix_addr_is_rejected_without_sending() {
    let (d, t, p) = v4_dgram();
    let s = managed::Socket::new(d, t, p).unwrap();
    let path = "/tmp/udpsock-managed-reject.sock";
    match s.send_to(&b"x"[..], &Addr::Unix(String::from(path))) {
        Err(SockError::AddrNotAvailable { addr_text }) => {
            assert_eq!(addr_text, path);
            let e = SockError::AddrNotAvailable { addr_text };
            assert!(e.message().contains(path));
        },
        _ => panic!("expected address-not-available"),
    }
}

#[test]
fn raw_unix_datagram_round_trip() {
    let name = "\u{0}udpsock-test-raw-unix";
    let l = local_listener(name);
    let (d, t, p) = local_dgram();
    let s = raw::Socket::new(d, t, p).unwrap();
    let n = s.send_to(&b"hello"[..], &Addr::Unix(String::from(name))).unwrap();
    assert_eq!(n, 5);
    let mut buf = vec![0u8; 64];
    let m = l.recv(buf.as_mut_slice()).unwrap();
    assert_eq!(&buf[..m], b"hello");
}

#[test]
fn raw_send_with_wrong_family_reports_os_error() {
    let (d, t, p) = v4_dgram();
    let s = raw::Socket::new(d, t, p).unwrap();
    match s.send_to(&b"x"[..], &Addr::Unix(String::from("\u{0}udpsock-test-nowhere"))) {
        Err(SockError::Os { message }) => assert!(!message.is_empty()),
        _ => panic!("expected an OS error for the mismatched family"),
    }
}
