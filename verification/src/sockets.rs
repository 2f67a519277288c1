//! The capability and factory traits that make up the seam, and the marker
//! types through which an application selects the live implementations.
//!
//! Each trait method carries a readiness precondition, given by a spec
//! function with a default of "always ready", which fits a live adapter.  A
//! scripted double narrows its readiness to "a result is still queued for
//! the operation", so a caller must show it has scripted enough results
//! before the call is accepted.

use vstd::prelude::*;

use crate::types::Duration;
use crate::types::IoError;
use crate::types::SocketAddress;

verus! {

/// The three UDP operations a protocol client needs, abstracted so that a
/// scripted double can stand in for a live socket.
pub trait UdpSocketWrapper {
    /// Whether the next `recv_from` on a buffer of `buf_len` bytes may be
    /// issued.  A live adapter is always ready, which the default states; a
    /// scripted double narrows this to "a result is still queued".
    open spec fn recv_from_ready(&self, buf_len: nat) -> bool {
        true
    }

    /// Whether the next `send_to` may be issued.
    open spec fn send_to_ready(&self) -> bool {
        true
    }

    /// Whether the next `set_read_timeout` may be issued.
    open spec fn set_read_timeout_ready(&self) -> bool {
        true
    }

    /// Waits for a datagram (bounded by the configured read timeout), writes
    /// its bytes into `buf` starting at offset 0, and returns the byte count
    /// together with the sender's address; or fails with an I/O error.  The
    /// buffer keeps its length: a datagram larger than `buf` is truncated.
    fn recv_from(&mut self, buf: &mut Vec<u8>) -> (r: Result<(usize, SocketAddress), IoError>)
        requires
            old(self).recv_from_ready(old(buf)@.len()),
        ensures
            final(buf)@.len() == old(buf)@.len(),
    ;

    /// Attempts to transmit `buf` to `addr` and returns the number of bytes
    /// actually sent; a partial send is reported through the count, never
    /// promoted to an error or silently treated as a full send.
    fn send_to(&mut self, buf: &Vec<u8>, addr: SocketAddress) -> (r: Result<usize, IoError>)
        requires
            old(self).send_to_ready(),
    ;

    /// Sets (or, with `None`, clears) the longest time a later `recv_from`
    /// may block.  Affects only future calls.
    fn set_read_timeout(&mut self, dur: Option<Duration>) -> (r: Result<(), IoError>)
        requires
            old(self).set_read_timeout_ready(),
    ;
}

/// Produces a socket capability bound to a requested local address, so that
/// client code never constructs an adapter directly and a test can
/// substitute a scripted factory.
pub trait UdpSocketFactory {
    /// The capability type this factory produces.
    type Socket: UdpSocketWrapper;

    /// Whether the next `make` may be issued.  A live factory is always
    /// ready, which the default states; a scripted double narrows this to
    /// "a result is still queued".
    open spec fn make_ready(&self) -> bool {
        true
    }

    /// Binds a new socket to `addr` and returns the capability wrapping it,
    /// or fails with an I/O error when the address is already bound,
    /// invalid, or denied.
    fn make(&mut self, addr: SocketAddress) -> (r: Result<Self::Socket, IoError>)
        requires
            old(self).make_ready(),
    ;
}

/// Returns a local port number that was free at the instant of the probe.
/// No stronger promise is possible: another process may bind the same port
/// between the probe and its use.
pub trait FreePortFactory {
    /// Whether the next `make` may be issued.  A live factory is always
    /// ready, which the default states; a scripted double narrows this to
    /// "a result is still queued".
    open spec fn make_ready(&self) -> bool {
        true
    }

    /// Returns a currently unused local port number.
    fn make(&mut self) -> (r: u16)
        requires
            old(self).make_ready(),
    ;
}

/// Selects the live socket factory when wiring an application.  Binding an
/// operating-system socket is I/O that this verified core cannot perform
/// itself, so the unverified adapter layer around the crate implements
/// [`UdpSocketFactory`] for its wrapper of this marker.
pub struct UdpSocketFactoryReal {}

impl UdpSocketFactoryReal {
    pub fn new() -> (r: Self) {
        Self {}
    }
}

/// Selects the live free-port factory when wiring an application.  The
/// probe for an unused port is operating-system I/O, so the unverified
/// adapter layer implements [`FreePortFactory`] for its wrapper of this
/// marker.
pub struct FreePortFactoryReal {}

impl FreePortFactoryReal {
    pub fn new() -> (r: Self) {
        Self {}
    }
}

} // verus!
