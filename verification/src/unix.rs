//! Payload-length recovery for platforms that deliver a bare ICMP
//! datagram on a raw ICMP socket (Linux and most other Unix-likes): the
//! captured buffer starts at the ICMP header, so the echoed payload size
//! is the capture length minus the 8-byte ICMP header.

use vstd::prelude::*;

verus! {

/// Echoed payload size of a captured ICMPv4 datagram without a leading
/// IP header.
pub fn v4(buf: &[u8]) -> (len: u16)
    requires
        crate::UDP_HEADER_SIZE <= buf@.len() <= u16::MAX,
    ensures
        len == buf@.len() - crate::UDP_HEADER_SIZE,
{
    (buf.len() as u16) - crate::UDP_HEADER_SIZE
}

/// Echoed payload size of a captured ICMPv6 datagram without a leading
/// IP header.
pub fn v6(buf: &[u8]) -> (len: u16)
    requires
        crate::UDP_HEADER_SIZE <= buf@.len() <= u16::MAX,
    ensures
        len == buf@.len() - crate::UDP_HEADER_SIZE,
{
    (buf.len() as u16) - crate::UDP_HEADER_SIZE
}

} // verus!
