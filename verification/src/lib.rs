//! A deterministic-testing seam for UDP-based network protocol clients.
//!
//! Protocol code that exchanges datagrams with an external device should be
//! testable without a real network.  This crate supplies the seam: a
//! capability trait over the three UDP operations such code needs
//! ([`sockets::UdpSocketWrapper`]), a factory trait that produces bound
//! sockets ([`sockets::UdpSocketFactory`]), a factory trait that allocates
//! unused local ports ([`sockets::FreePortFactory`]), and scripted,
//! call-recording doubles of all three ([`mocks`]) whose playback and
//! recording behaviour is verified.
//!
//! The live, operating-system-backed implementations perform socket I/O,
//! which lies outside what can be verified here; they are supplied by a thin
//! unverified adapter layer around this crate, selected through the marker
//! types [`sockets::UdpSocketFactoryReal`] and [`sockets::FreePortFactoryReal`].

pub mod mocks;
pub mod sockets;
pub mod types;
