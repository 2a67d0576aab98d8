//! A minimal non-blocking UDP socket wrapper: one datagram endpoint type per
//! platform capability (raw-capable and managed-only), unified send/receive
//! semantics, and readiness registration with an external event poller.
pub mod addr;
pub mod err;
pub mod managed;
pub mod raw;
mod sys;
