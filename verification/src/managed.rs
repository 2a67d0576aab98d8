use vstd::prelude::*;
use crate::addr::{addr_text, Addr};
use crate::err::{error_from_io, message_text, SockError};

verus! {

/// Law: a rejection that `send_to` produces for the address `a` (an
/// address-not-available error carrying `a`'s textual form) has as its
/// message the fixed prefix followed by exactly that textual form — so the
/// rejected address's text always appears in the message.
pub proof fn lemma_rejection_message_names_the_address(e: SockError, a: Addr)
    requires
        e matches SockError::AddrNotAvailable { addr_text: t } && t@ == addr_text(a),
    ensures
        message_text(e) == "address not available: "@ + addr_text(a),
{
}

/// The managed-only datagram endpoint: owns the platform's managed UDP
/// socket object, which itself knows how to register with the poller. The
/// handle is valid for the whole lifetime of the value and is released when
/// the value is dropped; no explicit close is exposed.
pub struct Socket {
    socket: mio::net::UdpSocket,
    nonblocking: Ghost<bool>,
}

impl Socket {
    /// The socket was put in non-blocking mode when it was constructed.
    /// Construction is the only way to obtain a `Socket` and nothing ever
    /// clears the mode, so this holds for the value's whole lifetime.
    pub closed spec fn wf(&self) -> bool {
        self.nonblocking@
    }

    /// Allocates one OS datagram socket, puts it in non-blocking mode, then
    /// converts it into the platform's managed socket object. The first two
    /// steps return the OS error unchanged; a failure of the conversion,
    /// which is not expected to happen on a correctly built socket, is
    /// surfaced as the distinguished fatal `Conversion` error rather than a
    /// partially built value.
    pub fn new(domain: socket2::Domain, type_: socket2::Type, protocol: socket2::Protocol) -> (r:
        Result<Socket, SockError>)
        ensures
            r matches Ok(s) ==> s.wf(),
            r matches Err(e) ==> (e is WouldBlock || e is Os || e is Conversion),
    {
        let socket = match crate::sys::socket_new(domain, type_, protocol) {
            Ok(s) => s,
            Err(e) => {
                return Err(error_from_io(&e));
            },
        };
        match crate::sys::socket_set_nonblocking(&socket) {
            Ok(_) => (),
            Err(e) => {
                return Err(error_from_io(&e));
            },
        };
        match crate::sys::socket_into_managed(socket) {
            Ok(s) => Ok(Socket { socket: s, nonblocking: Ghost(true) }),
            Err(e) => Err(SockError::Conversion { message: crate::sys::io_message(&e) }),
        }
    }

    /// The managed socket object itself, for callers that register it with
    /// the poller directly: it already satisfies the poller's registration
    /// capability.
    pub fn as_udpsocket(&self) -> &mio::net::UdpSocket {
        &self.socket
    }

    /// Sends one datagram to `target`. This platform variant must first
    /// classify the destination: an IPv4 or IPv6 endpoint is converted to
    /// the native tagged address representation and sent; any other address
    /// is rejected up front, without attempting the send, with an
    /// address-not-available error that carries the rejected address's
    /// textual form. On success the count never exceeds the buffer's length.
    pub fn send_to(&self, buf: &[u8], target: &Addr) -> (r: Result<usize, SockError>)
        ensures
            !target.is_inet() ==> (r matches Err(e) && e matches SockError::AddrNotAvailable {
                addr_text: t,
            } && t@ == addr_text(*target)),
            target.is_inet() ==> (r matches Ok(n) ==> n <= buf@.len()),
            target.is_inet() ==> (r matches Err(e) ==> (e is WouldBlock || e is Os)),
    {
        let net = match target {
            Addr::V4(a) => crate::sys::net_addr_v4(a),
            Addr::V6(a) => crate::sys::net_addr_v6(a),
            Addr::Unix(_) => {
                return Err(SockError::AddrNotAvailable { addr_text: target.to_text() });
            },
        };
        match crate::sys::udp_send_to(&self.socket, buf, &net) {
            Ok(n) => Ok(n),
            Err(e) => Err(error_from_io(&e)),
        }
    }

    /// Receives one datagram into a prefix of `buf` and returns its length.
    /// The buffer keeps its length. A would-block error means no datagram is
    /// pending right now; the sender's address is not reported.
    pub fn recv(&self, buf: &mut Vec<u8>) -> (r: Result<usize, SockError>)
        ensures
            final(buf)@.len() == old(buf)@.len(),
            r matches Ok(n) ==> n <= final(buf)@.len(),
            r matches Err(e) ==> (e is WouldBlock || e is Os),
    {
        match crate::sys::udp_recv(&self.socket, buf) {
            Ok(n) => Ok(n),
            Err(e) => Err(error_from_io(&e)),
        }
    }

    /// Registers this socket's readiness interest with the poller under the
    /// caller's token. A pure delegation: no state of this value changes,
    /// and a refusal is the poller's own error, passed on unchanged.
    pub fn register(
        &self,
        poll: &mio::Poll,
        token: usize,
        interest: mio::Ready,
        opts: mio::PollOpt,
    ) -> (r: Result<(), SockError>)
        ensures
            r matches Err(e) ==> e is Poller,
    {
        match crate::sys::poll_register(poll, &self.socket, token, interest, opts) {
            Ok(_) => Ok(()),
            Err(e) => Err(SockError::Poller { message: crate::sys::io_message(&e) }),
        }
    }

    /// Updates this socket's token, interest and options with the poller.
    /// A pure delegation, like `register`.
    pub fn reregister(
        &self,
        poll: &mio::Poll,
        token: usize,
        interest: mio::Ready,
        opts: mio::PollOpt,
    ) -> (r: Result<(), SockError>)
        ensures
            r matches Err(e) ==> e is Poller,
    {
        match crate::sys::poll_reregister(poll, &self.socket, token, interest, opts) {
            Ok(_) => Ok(()),
            Err(e) => Err(SockError::Poller { message: crate::sys::io_message(&e) }),
        }
    }

    /// Removes this socket from the poller: no further readiness events are
    /// delivered for it. A pure delegation, like `register`.
    pub fn deregister(&self, poll: &mio::Poll) -> (r: Result<(), SockError>)
        ensures
            r matches Err(e) ==> e is Poller,
    {
        match crate::sys::poll_deregister(poll, &self.socket) {
            Ok(_) => Ok(()),
            Err(e) => Err(SockError::Poller { message: crate::sys::io_message(&e) }),
        }
    }
}

} // verus!
