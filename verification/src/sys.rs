use vstd::prelude::*;
use socket2::Socket as Socket2;
use crate::addr::{AddrV4, AddrV6};

verus! {

// The outside types that run through the library: each is opaque here, a
// value carried between the trusted calls below.
#[verifier::external_type_specification]
#[verifier::external_body]
pub struct ExSocket2(Socket2);

#[verifier::external_type_specification]
#[verifier::external_body]
pub struct ExSockAddr(socket2::SockAddr);

#[verifier::external_type_specification]
#[verifier::external_body]
pub struct ExDomain(socket2::Domain);

#[verifier::external_type_specification]
#[verifier::external_body]
pub struct ExType(socket2::Type);

#[verifier::external_type_specification]
#[verifier::external_body]
pub struct ExProtocol(socket2::Protocol);

#[verifier::external_type_specification]
#[verifier::external_body]
pub struct ExUdpSocket(mio::net::UdpSocket);

#[verifier::external_type_specification]
#[verifier::external_body]
pub struct ExPoll(mio::Poll);

#[verifier::external_type_specification]
#[verifier::external_body]
pub struct ExReady(mio::Ready);

#[verifier::external_type_specification]
#[verifier::external_body]
pub struct ExPollOpt(mio::PollOpt);

#[verifier::external_type_specification]
#[verifier::external_body]
pub struct ExIoError(std::io::Error);

#[verifier::external_type_specification]
#[verifier::external_body]
pub struct ExNetSocketAddr(core::net::SocketAddr);

/// Relies on std::io::Error::kind: tells the would-block kind apart from
/// every other error kind.
#[verifier::external_body]
pub(crate) fn io_is_would_block(e: &std::io::Error) -> (r: bool) {
    e.kind() == std::io::ErrorKind::WouldBlock
}

/// Relies on the Display impl of std::io::Error: the OS's own message.
#[verifier::external_body]
pub(crate) fn io_message(e: &std::io::Error) -> (r: String) {
    format!("{}", e)
}

/// Relies on socket2::Socket::new, which performs the socket(2) call:
/// allocates one OS socket of the given family, kind and protocol, with no
/// further configuration.
#[verifier::external_body]
pub(crate) fn socket_new(
    domain: socket2::Domain,
    type_: socket2::Type,
    protocol: socket2::Protocol,
) -> (r: Result<socket2::Socket, std::io::Error>) {
    socket2::Socket::new(domain, type_, Some(protocol))
}

/// Relies on socket2::Socket::set_nonblocking: puts the socket in
/// non-blocking mode.
#[verifier::external_body]
pub(crate) fn socket_set_nonblocking(s: &socket2::Socket) -> (r: Result<(), std::io::Error>) {
    s.set_nonblocking(true)
}

/// Relies on socket2::Socket::send_to, the sendto(2) call: writes one
/// datagram; on success the count never exceeds what was given.
#[verifier::external_body]
pub(crate) fn socket_send_to(
    s: &socket2::Socket,
    buf: &[u8],
    addr: &socket2::SockAddr,
) -> (r: Result<usize, std::io::Error>)
    ensures
        r matches Ok(n) ==> n <= buf@.len(),
{
    s.send_to(buf, addr)
}

/// Relies on socket2::Socket::recv, the recv(2) call: fills a prefix of the
/// buffer and returns its length; the buffer keeps its length.
#[verifier::external_body]
pub(crate) fn socket_recv(s: &socket2::Socket, buf: &mut Vec<u8>) -> (r: Result<
    usize,
    std::io::Error,
>)
    ensures
        final(buf)@.len() == old(buf)@.len(),
        r matches Ok(n) ==> n <= old(buf)@.len(),
{
    s.recv(buf.as_mut_slice())
}

/// Relies on core::net::SocketAddrV4::new: packs the four octets and the
/// port, unchanged, into the OS's tagged address representation.
#[verifier::external_body]
pub(crate) fn net_addr_v4(a: &AddrV4) -> (r: core::net::SocketAddr) {
    core::net::SocketAddr::V4(
        core::net::SocketAddrV4::new(
            core::net::Ipv4Addr::new(a.octets[0], a.octets[1], a.octets[2], a.octets[3]),
            a.port,
        ),
    )
}

/// Relies on core::net::SocketAddrV6::new: packs the sixteen octets, the
/// port and the scope, unchanged, into the OS's tagged address
/// representation (flow information zero).
#[verifier::external_body]
pub(crate) fn net_addr_v6(a: &AddrV6) -> (r: core::net::SocketAddr) {
    core::net::SocketAddr::V6(
        core::net::SocketAddrV6::new(core::net::Ipv6Addr::from(a.octets), a.port, 0, a.scope),
    )
}

/// Relies on socket2's From<core::net::SocketAddr> impl: wraps the tagged
/// address, unchanged, in socket2's generic address form.
#[verifier::external_body]
pub(crate) fn sock_addr_inet(a: core::net::SocketAddr) -> (r: socket2::SockAddr) {
    socket2::SockAddr::from(a)
}

/// Relies on socket2::SockAddr::unix: builds a path-based local address.
/// Errors only when the path does not fit the OS's address structure.
#[verifier::external_body]
pub(crate) fn sock_addr_unix(path: &String) -> (r: Result<socket2::SockAddr, std::io::Error>) {
    socket2::SockAddr::unix(path.as_str())
}

/// Relies on socket2::Socket::into_udp_socket and
/// mio::net::UdpSocket::from_socket: hands the very same OS socket, already
/// non-blocking, over to the platform's managed UDP socket object.
#[verifier::external_body]
pub(crate) fn socket_into_managed(s: socket2::Socket) -> (r: Result<
    mio::net::UdpSocket,
    std::io::Error,
>) {
    mio::net::UdpSocket::from_socket(s.into_udp_socket())
}

/// Relies on mio::net::UdpSocket::send_to: writes one datagram to the given
/// endpoint; on success the count never exceeds what was given.
#[verifier::external_body]
pub(crate) fn udp_send_to(
    s: &mio::net::UdpSocket,
    buf: &[u8],
    target: &core::net::SocketAddr,
) -> (r: Result<usize, std::io::Error>)
    ensures
        r matches Ok(n) ==> n <= buf@.len(),
{
    s.send_to(buf, target)
}

/// Relies on mio::net::UdpSocket::recv: fills a prefix of the buffer and
/// returns its length; the buffer keeps its length.
#[verifier::external_body]
pub(crate) fn udp_recv(s: &mio::net::UdpSocket, buf: &mut Vec<u8>) -> (r: Result<
    usize,
    std::io::Error,
>)
    ensures
        final(buf)@.len() == old(buf)@.len(),
        r matches Ok(n) ==> n <= old(buf)@.len(),
{
    s.recv(buf.as_mut_slice())
}

/// Relies on mio::Poll::register: adds the socket to the poller's readiness
/// set under the given token; the poller alone decides the outcome.
#[verifier::external_body]
pub(crate) fn poll_register(
    poll: &mio::Poll,
    s: &mio::net::UdpSocket,
    token: usize,
    interest: mio::Ready,
    opts: mio::PollOpt,
) -> (r: Result<(), std::io::Error>) {
    poll.register(s, mio::Token(token), interest, opts)
}

/// Relies on mio::Poll::reregister: updates the socket's token, interest and
/// options in the poller's readiness set.
#[verifier::external_body]
pub(crate) fn poll_reregister(
    poll: &mio::Poll,
    s: &mio::net::UdpSocket,
    token: usize,
    interest: mio::Ready,
    opts: mio::PollOpt,
) -> (r: Result<(), std::io::Error>) {
    poll.reregister(s, mio::Token(token), interest, opts)
}

/// Relies on mio::Poll::deregister: removes the socket from the poller's
/// readiness set; no further events are delivered for it.
#[verifier::external_body]
pub(crate) fn poll_deregister(poll: &mio::Poll, s: &mio::net::UdpSocket) -> (r: Result<
    (),
    std::io::Error,
>) {
    poll.deregister(s)
}

} // verus!
