//! Socket addresses as plain values.

use vstd::prelude::*;

verus! {

/// The address of an SMTP server once it has been resolved: an IP address
/// and a port, with the two extra fields that an IPv6 socket address has.
///
/// The library only carries such an address from resolution to delivery;
/// the caller converts it from and to the socket address type of its
/// network layer.
#[derive(Clone, Copy, Debug, PartialEq, Eq)]
pub enum SocketAddress {
    /// An IPv4 address, most significant octet first, and a port.
    V4 { octets: [u8; 4], port: u16 },
    /// An IPv6 address as eight 16-bit segments, and a port.
    V6 { segments: [u16; 8], port: u16, flowinfo: u32, scope_id: u32 },
}

} // verus!
