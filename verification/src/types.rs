//! Plain-data models of the values that cross the socket seam: host
//! addresses, read-timeout durations, and the error taxonomy surfaced by
//! every fallible socket operation.

use vstd::prelude::*;

verus! {

/// A host address, held as plain numeric data so that contracts can speak
/// about it directly.
#[derive(Clone, Copy, PartialEq, Eq, Structural, Debug)]
pub enum IpAddress {
    /// Four dotted-quad octets, most significant first.
    V4(u8, u8, u8, u8),
    /// Eight 16-bit groups, most significant first.
    V6(u16, u16, u16, u16, u16, u16, u16, u16),
}

/// A (host, port) pair; immutable once a socket is bound to it.
#[derive(Clone, Copy, PartialEq, Eq, Structural, Debug)]
pub struct SocketAddress {
    pub ip: IpAddress,
    pub port: u16,
}

impl SocketAddress {
    pub fn new(ip: IpAddress, port: u16) -> (r: SocketAddress)
        ensures
            r.ip == ip,
            r.port == port,
    {
        SocketAddress { ip, port }
    }

    /// The IPv4 loopback host with the given port.
    pub fn loopback(port: u16) -> (r: SocketAddress)
        ensures
            r.ip == IpAddress::V4(127, 0, 0, 1),
            r.port == port,
    {
        SocketAddress { ip: IpAddress::V4(127, 0, 0, 1), port }
    }
}

/// A span of time for read timeouts: whole seconds plus a sub-second
/// nanosecond remainder.
#[derive(Clone, Copy, PartialEq, Eq, Structural, Debug)]
pub struct Duration {
    pub secs: u64,
    pub nanos: u32,
}

impl Duration {
    /// A duration is in normal form when its nanosecond part does not
    /// amount to a whole second.
    pub open spec fn well_formed(self) -> bool {
        self.nanos < 1_000_000_000
    }

    pub fn new(secs: u64, nanos: u32) -> (r: Duration)
        requires
            nanos < 1_000_000_000,
        ensures
            r.secs == secs,
            r.nanos == nanos,
            r.well_formed(),
    {
        Duration { secs, nanos }
    }

    pub fn from_millis(millis: u64) -> (r: Duration)
        ensures
            r.secs == millis / 1000,
            r.nanos == (millis % 1000) * 1_000_000,
            r.well_formed(),
    {
        let secs: u64 = millis / 1000;
        let rem: u32 = (millis % 1000) as u32;
        Duration { secs, nanos: rem * 1_000_000 }
    }
}

/// The kinds of failure a socket operation can surface.  Real adapters
/// translate the operating system's error report into one of these;
/// scripted doubles play whichever kind a test queued.
#[derive(Clone, Copy, PartialEq, Eq, Structural, Debug)]
pub enum IoError {
    /// The requested local address is already bound.
    AddressInUse,
    /// The requested local address is not available on this host.
    AddressNotAvailable,
    /// The operating system denied the operation.
    PermissionDenied,
    /// A receive waited for the configured read timeout and no datagram came.
    TimedOut,
    /// The destination refused the datagram.
    ConnectionRefused,
    /// A parameter was rejected by the underlying handle.
    InvalidInput,
    /// Any other transport failure, with the operating system's raw error
    /// code where one was reported.
    Other(i32),
}

} // verus!
