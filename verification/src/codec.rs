//! ICMP Echo packet codec. An Echo Request carries an 8-byte header
//! (type, code, checksum, identifier, sequence number) and a filler
//! payload whose length is the quantity under test; the sequence-number
//! field repeats that length as a self-describing size marker. Inbound
//! buffers are parsed just far enough to recover an Echo Reply's
//! declared payload length.

use crate::checksum::compute_checksum;
use crate::checksum::internet_checksum;
use crate::checksum::lemma_fold16_bounds;
use crate::checksum::lemma_fold16_complement;
use crate::checksum::lemma_sum_words_nonneg;
use crate::checksum::lemma_sum_words_set_word;
use crate::checksum::sum_words;
use vstd::arithmetic::div_mod::lemma_fundamental_div_mod;
use vstd::prelude::*;

verus! {

/// Filler byte of a probe payload.
pub const FILLER: u8 = 9;

/// ICMP type of an ICMPv4 Echo Request.
pub const ICMP_ECHO_REQUEST: u8 = 8;

/// ICMP type of an ICMPv4 Echo Reply.
pub const ICMP_ECHO_REPLY: u8 = 0;

/// ICMP type of an ICMPv6 Echo Reply.
pub const ICMPV6_ECHO_REPLY: u8 = 129;

/// Echo Request header probing `len` payload bytes, with a zeroed
/// checksum field. The identifier is left zero: some kernels rewrite
/// it, so it is never used for correlation.
pub open spec fn spec_header_zero(len: u16) -> Seq<u8> {
    seq![
        ICMP_ECHO_REQUEST,
        0u8,
        0u8,
        0u8,
        0u8,
        0u8,
        (len / 0x100) as u8,
        (len % 0x100) as u8,
    ]
}

/// The whole Echo Request for `len` payload bytes, checksum field still
/// zero.
pub open spec fn spec_request_zero(len: u16) -> Seq<u8> {
    spec_header_zero(len) + Seq::new(len as nat, |j: int| FILLER)
}

/// The encoded Echo Request: the zero-checksum message with its
/// Internet checksum written big-endian over bytes 2 and 3.
pub open spec fn spec_echo_request(len: u16) -> Seq<u8> {
    let c = internet_checksum(spec_request_zero(len));
    spec_request_zero(len).update(2, (c / 0x100) as u8).update(3, (c % 0x100) as u8)
}

/// A buffer that parses as an ICMPv4 Echo Reply: type 0, code 0, and
/// room for the full 8-byte header.
pub open spec fn is_echo_reply_v4(s: Seq<u8>) -> bool {
    s.len() >= crate::UDP_HEADER_SIZE && s[0] == ICMP_ECHO_REPLY && s[1] == 0
}

/// A buffer that parses as an ICMPv6 Echo Reply: type 129, code 0, and
/// room for the full 8-byte header.
pub open spec fn is_echo_reply_v6(s: Seq<u8>) -> bool {
    s.len() >= crate::UDP_HEADER_SIZE && s[0] == ICMPV6_ECHO_REPLY && s[1] == 0
}

/// Identifier field of an echo message.
pub open spec fn spec_identifier(s: Seq<u8>) -> u16
    recommends
        s.len() >= crate::UDP_HEADER_SIZE,
{
    (s[4] * 0x100 + s[5]) as u16
}

/// Sequence-number field of an echo message.
pub open spec fn spec_sequence(s: Seq<u8>) -> u16
    recommends
        s.len() >= crate::UDP_HEADER_SIZE,
{
    (s[6] * 0x100 + s[7]) as u16
}

/// Payload length declared by a captured Echo Reply: the capture length
/// minus the leading IPv4 header, when the platform delivers one, and
/// the ICMP header; nothing if the buffer does not parse as an ICMPv4
/// Echo Reply at that offset or exceeds a 16-bit total length.
pub open spec fn spec_reply_length(s: Seq<u8>, wraps_ip_header: bool) -> Option<u16> {
    let skip_len: int = if wraps_ip_header {
        crate::IPV4_HEADER_SIZE as int
    } else {
        0
    };
    if s.len() <= 0xFFFF && s.len() >= skip_len + crate::UDP_HEADER_SIZE && is_echo_reply_v4(
        s.skip(skip_len),
    ) {
        Some((s.len() - skip_len - crate::UDP_HEADER_SIZE) as u16)
    } else {
        None
    }
}

/// Checksum round trip: recomputing the Internet checksum over an
/// encoded Echo Request yields zero.
pub proof fn lemma_checksum_round_trip(len: u16)
    ensures
        internet_checksum(spec_echo_request(len)) == 0,
{
    let z = spec_request_zero(len);
    lemma_sum_words_nonneg(z);
    lemma_fold16_bounds(sum_words(z));
    let c = internet_checksum(z);
    let hi = (c / 0x100) as u8;
    let lo = (c % 0x100) as u8;
    lemma_fundamental_div_mod(c, 0x100);
    assert(z[2] == 0 && z[3] == 0);
    lemma_sum_words_set_word(z, hi, lo);
    assert(sum_words(spec_echo_request(len)) == sum_words(z) + c);
    lemma_fold16_complement(sum_words(z));
}

/// Builds an ICMP Echo Request probing `len` payload bytes.
pub fn encode_echo_request(len: u16) -> (pkt: Vec<u8>)
    requires
        len <= crate::MTU_IPV4,
    ensures
        pkt@ == spec_echo_request(len),
        pkt@.len() == len + crate::UDP_HEADER_SIZE,
{
    let mut pkt: Vec<u8> = Vec::new();
    pkt.push(ICMP_ECHO_REQUEST);
    pkt.push(0);
    pkt.push(0);
    pkt.push(0);
    pkt.push(0);
    pkt.push(0);
    pkt.push((len / 0x100) as u8);
    pkt.push((len % 0x100) as u8);
    proof {
        assert(pkt@ =~= spec_header_zero(len));
    }
    let mut i: u16 = 0;
    while i < len
        invariant
            i <= len,
            pkt@ == spec_header_zero(len) + Seq::new(i as nat, |j: int| FILLER),
        decreases len - i,
    {
        pkt.push(FILLER);
        i = i + 1;
        proof {
            assert(pkt@ =~= spec_header_zero(len) + Seq::new(i as nat, |j: int| FILLER));
        }
    }
    proof {
        assert(pkt@ == spec_request_zero(len));
    }
    let c: u16 = compute_checksum(pkt.as_slice());
    let hi: u8 = (c / 0x100) as u8;
    let lo: u8 = (c % 0x100) as u8;
    pkt[2] = hi;
    pkt[3] = lo;
    proof {
        assert(pkt@ == spec_echo_request(len));
        assert(spec_request_zero(len).len() == len + crate::UDP_HEADER_SIZE);
    }
    pkt
}

/// Recovers the declared payload length of a captured Echo Reply, with
/// or without a leading IPv4 header, or nothing if the capture does not
/// parse as one.
pub fn decode_reply_length(buf: &[u8], wraps_ip_header: bool) -> (r: Option<u16>)
    ensures
        r == spec_reply_length(buf@, wraps_ip_header),
{
    let skip_len: usize = if wraps_ip_header {
        crate::IPV4_HEADER_SIZE as usize
    } else {
        0
    };
    if buf.len() > 0xFFFF {
        return None;
    }
    if buf.len() < skip_len + (crate::UDP_HEADER_SIZE as usize) {
        return None;
    }
    if buf[skip_len] == ICMP_ECHO_REPLY && buf[skip_len + 1] == 0 {
        Some((buf.len() - skip_len - (crate::UDP_HEADER_SIZE as usize)) as u16)
    } else {
        None
    }
}

} // verus!
