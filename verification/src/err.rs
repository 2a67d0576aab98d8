use vstd::prelude::*;
use vstd::string::StringExecFns;

verus! {

/// What a socket operation can fail with. Every error is reported to the
/// immediate caller unchanged: the library retries nothing and logs nothing.
#[derive(Debug)]
pub enum SockError {
    /// Transient non-blocking indication: retry after the matching readiness
    /// notification. Never a terminal failure.
    WouldBlock,
    /// The destination is neither an IPv4 nor an IPv6 endpoint, on the send
    /// path that requires address classification. Carries the rejected
    /// address's textual form.
    AddrNotAvailable { addr_text: String },
    /// The raw-to-managed socket conversion failed at construction. Fatal to
    /// that construction attempt; no partially built socket is returned.
    Conversion { message: String },
    /// The poller refused a registration, reregistration or deregistration.
    /// The meaning is the poller's; the message is passed on unchanged.
    Poller { message: String },
    /// Any other OS-level I/O error, with the OS's own message.
    Os { message: String },
}

/// The human-readable message of an error.
pub open spec fn message_text(e: SockError) -> Seq<char> {
    match e {
        SockError::WouldBlock => "operation would block"@,
        SockError::AddrNotAvailable { addr_text } => "address not available: "@ + addr_text@,
        SockError::Conversion { message } => "socket conversion failed: "@ + message@,
        SockError::Poller { message } => "poller error: "@ + message@,
        SockError::Os { message } => message@,
    }
}

impl SockError {
    /// True exactly of the transient would-block indication.
    pub fn is_would_block(&self) -> (b: bool)
        ensures
            b == (self is WouldBlock),
    {
        match self {
            SockError::WouldBlock => true,
            _ => false,
        }
    }

    /// The error rendered as text, one line, for diagnostics.
    pub fn message(&self) -> (s: String)
        ensures
            s@ == message_text(*self),
    {
        match self {
            SockError::WouldBlock => String::from_str("operation would block"),
            SockError::AddrNotAvailable { addr_text } => String::from_str(
                "address not available: ",
            ).concat(addr_text.as_str()),
            SockError::Conversion { message } => String::from_str(
                "socket conversion failed: ",
            ).concat(message.as_str()),
            SockError::Poller { message } => String::from_str("poller error: ").concat(
                message.as_str(),
            ),
            SockError::Os { message } => message.clone(),
        }
    }
}

/// Maps an OS error to the library's own: the would-block kind is told apart,
/// every other kind keeps the OS's message.
pub(crate) fn error_from_io(e: &std::io::Error) -> (r: SockError)
    ensures
        r is WouldBlock || r is Os,
{
    if crate::sys::io_is_would_block(e) {
        SockError::WouldBlock
    } else {
        SockError::Os { message: crate::sys::io_message(e) }
    }
}

} // verus!
