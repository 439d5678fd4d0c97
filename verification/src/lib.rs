//! Path MTU discovery over ICMPv4 Echo probing.
//!
//! The crate holds the verified core of an active path-MTU prober: the
//! ICMP Echo packet codec with its Internet checksum, the correlation
//! table that keeps one in-flight probe per destination, the per-datagram
//! decision of the receiver task, and the adaptive search that converges
//! on the largest deliverable payload size. Socket handling and task
//! scheduling are left to the embedding application, which drives the
//! probe state machine with the replies and timeouts it observes.

use vstd::prelude::*;

pub mod checksum;
pub mod codec;
pub mod darwin;
pub mod probe;
pub mod receiver;
pub mod resolve;
pub mod table;
pub mod unix;

pub use checksum::compute_checksum;
pub use checksum::fold16;
pub use checksum::internet_checksum;
pub use checksum::sum_words;
pub use codec::decode_reply_length;
pub use codec::encode_echo_request;
use codec::ICMP_ECHO_REPLY;
use codec::ICMPV6_ECHO_REPLY;
use codec::is_echo_reply_v4;
use codec::is_echo_reply_v6;
use codec::spec_identifier;
use codec::spec_sequence;
pub use probe::Action;
pub use probe::Event;
pub use probe::Phase;
pub use probe::Probe;
pub use receiver::handle_datagram;
pub use resolve::resolve_perfect;
pub use resolve::resolve_silent;
pub use resolve::resolve_threshold;
pub use table::CorrelationTable;
pub use table::Registration;
pub use table::addr_key;
pub use table::register_rel;

verus! {

/// Link MTU assumed for the path ceiling: plain Ethernet.
pub const ETHERNET: u16 = 1500;

/// Size of an IPv4 header without options.
pub const IPV4_HEADER_SIZE: u16 = 20;

/// Size of an IPv6 header.
pub const IPV6_HEADER_SIZE: u16 = 40;

/// Transport-header overhead charged against the link MTU; the ICMP Echo
/// header has the same size.
pub const UDP_HEADER_SIZE: u16 = 8;

/// Largest payload ever worth probing over IPv4: the link MTU minus the
/// IPv4 and transport headers.
pub const MTU_IPV4: u16 = ETHERNET - IPV4_HEADER_SIZE - UDP_HEADER_SIZE;

/// Largest payload ever worth probing over IPv6.
pub const MTU_IPV6: u16 = ETHERNET - IPV6_HEADER_SIZE - UDP_HEADER_SIZE;

/// Classic IPv4 minimum reassembly size: every conforming host accepts
/// datagrams of this total length.
pub const IPV4_MIN_REASSEMBLY: u16 = 576;

/// Conservative guaranteed-deliverable payload floor over IPv4.
pub const MTU_MIN_IPV4: u16 = IPV4_MIN_REASSEMBLY - IPV4_HEADER_SIZE - UDP_HEADER_SIZE;

/// Parses a bare ICMPv4 Echo Reply, as delivered by platforms that do
/// not prepend an IP header, into its identifier and sequence-number
/// fields; the sequence number is the echoed payload size marker.
pub fn v4(buf: &[u8]) -> (r: Option<(u16, u16)>)
    ensures
        r == (if is_echo_reply_v4(buf@) {
            Some((spec_identifier(buf@), spec_sequence(buf@)))
        } else {
            None::<(u16, u16)>
        }),
{
    if buf.len() >= UDP_HEADER_SIZE as usize && buf[0] == ICMP_ECHO_REPLY && buf[1] == 0 {
        let ident: u16 = (buf[4] as u16) * 0x100 + (buf[5] as u16);
        let seqno: u16 = (buf[6] as u16) * 0x100 + (buf[7] as u16);
        Some((ident, seqno))
    } else {
        None
    }
}

/// Parses a bare ICMPv6 Echo Reply into its identifier and
/// sequence-number fields.
pub fn v6(buf: &[u8]) -> (r: Option<(u16, u16)>)
    ensures
        r == (if is_echo_reply_v6(buf@) {
            Some((spec_identifier(buf@), spec_sequence(buf@)))
        } else {
            None::<(u16, u16)>
        }),
{
    if buf.len() >= UDP_HEADER_SIZE as usize && buf[0] == ICMPV6_ECHO_REPLY && buf[1] == 0 {
        let ident: u16 = (buf[4] as u16) * 0x100 + (buf[5] as u16);
        let seqno: u16 = (buf[6] as u16) * 0x100 + (buf[7] as u16);
        Some((ident, seqno))
    } else {
        None
    }
}

/// IPv6 discovery is not implemented; the type stands as a placeholder
/// for API uniformity with the IPv4 engine.
pub struct MtuV6 {}

} // verus!
