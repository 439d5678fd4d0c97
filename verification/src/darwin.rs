//! Payload-length recovery for platforms that prepend the IP header to
//! what a raw ICMP socket captures (macOS and iOS): the echoed payload
//! size is the capture length minus the fixed IP header and the 8-byte
//! ICMP header.

use vstd::prelude::*;

verus! {

/// Echoed payload size of a captured ICMPv4 datagram with a leading
/// IPv4 header.
pub fn v4(buf: &[u8]) -> (len: u16)
    requires
        crate::IPV4_HEADER_SIZE + crate::UDP_HEADER_SIZE <= buf@.len() <= u16::MAX,
    ensures
        len == buf@.len() - crate::IPV4_HEADER_SIZE - crate::UDP_HEADER_SIZE,
{
    (buf.len() as u16) - crate::IPV4_HEADER_SIZE - crate::UDP_HEADER_SIZE
}

/// Echoed payload size of a captured ICMPv6 datagram with a leading
/// IPv6 header.
pub fn v6(buf: &[u8]) -> (len: u16)
    requires
        crate::IPV6_HEADER_SIZE + crate::UDP_HEADER_SIZE <= buf@.len() <= u16::MAX,
    ensures
        len == buf@.len() - crate::IPV6_HEADER_SIZE - crate::UDP_HEADER_SIZE,
{
    (buf.len() as u16) - crate::IPV6_HEADER_SIZE - crate::UDP_HEADER_SIZE
}

} // verus!
