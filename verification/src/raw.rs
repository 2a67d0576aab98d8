use vstd::prelude::*;
use crate::addr::Addr;
use crate::err::{error_from_io, SockError};

verus! {

/// The raw-capable datagram endpoint: owns the OS socket handle directly.
/// The handle is valid for the whole lifetime of the value and is released
/// when the value is dropped; no explicit close is exposed.
pub struct Socket {
    socket: socket2::Socket,
    nonblocking: Ghost<bool>,
}

impl Socket {
    /// The socket was put in non-blocking mode when it was constructed.
    /// Construction is the only way to obtain a `Socket` and nothing ever
    /// clears the mode, so this holds for the value's whole lifetime.
    pub closed spec fn wf(&self) -> bool {
        self.nonblocking@
    }

    /// Allocates one OS datagram socket of the given family, kind and
    /// protocol, and puts it in non-blocking mode. Both steps must succeed,
    /// or the underlying OS error is returned unchanged.
    pub fn new(domain: socket2::Domain, type_: socket2::Type, protocol: socket2::Protocol) -> (r:
        Result<Socket, SockError>)
        ensures
            r matches Ok(s) ==> s.wf(),
            r matches Err(e) ==> (e is WouldBlock || e is Os),
    {
        let socket = match crate::sys::socket_new(domain, type_, protocol) {
            Ok(s) => s,
            Err(e) => {
                return Err(error_from_io(&e));
            },
        };
        match crate::sys::socket_set_nonblocking(&socket) {
            Ok(_) => Ok(Socket { socket, nonblocking: Ghost(true) }),
            Err(e) => Err(error_from_io(&e)),
        }
    }

    /// The underlying OS socket, exposed only so that a descriptor-based
    /// poller adapter can be built around it; never for direct I/O, which
    /// would bypass this type's ownership of the handle.
    pub fn as_socket(&self) -> &socket2::Socket {
        &self.socket
    }

    /// Sends one datagram to `target`. Every address the model can hold is
    /// passed through to the OS unchanged; no classification happens on this
    /// platform variant, so an address-not-available rejection never comes
    /// from here. On success the count never exceeds the buffer's length; a
    /// would-block error means no send buffer space was available right now.
    pub fn send_to(&self, buf: &[u8], target: &Addr) -> (r: Result<usize, SockError>)
        ensures
            r matches Ok(n) ==> n <= buf@.len(),
            r matches Err(e) ==> (e is WouldBlock || e is Os),
    {
        let sockaddr = match target {
            Addr::V4(a) => crate::sys::sock_addr_inet(crate::sys::net_addr_v4(a)),
            Addr::V6(a) => crate::sys::sock_addr_inet(crate::sys::net_addr_v6(a)),
            Addr::Unix(p) => match crate::sys::sock_addr_unix(p) {
                Ok(sa) => sa,
                Err(e) => {
                    return Err(error_from_io(&e));
                },
            },
        };
        match crate::sys::socket_send_to(&self.socket, buf, &sockaddr) {
            Ok(n) => Ok(n),
            Err(e) => Err(error_from_io(&e)),
        }
    }

    /// Receives one datagram into a prefix of `buf` and returns its length.
    /// The buffer keeps its length. A would-block error means no datagram is
    /// pending right now; the sender's address is not reported.
    pub fn recv(&self, buf: &mut Vec<u8>) -> (r: Result<usize, SockError>)
        ensures
            final(buf)@.len() == old(buf)@.len(),
            r matches Ok(n) ==> n <= final(buf)@.len(),
            r matches Err(e) ==> (e is WouldBlock || e is Os),
    {
        match crate::sys::socket_recv(&self.socket, buf) {
            Ok(n) => Ok(n),
            Err(e) => Err(error_from_io(&e)),
        }
    }
}

} // verus!
