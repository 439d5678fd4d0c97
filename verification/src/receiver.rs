//! The receiver task's per-datagram decision. One long-lived task owns
//! the inbound side of the raw socket; for each captured datagram it
//! recovers the Echo Reply's declared length and looks up the in-flight
//! probe of the source address. The socket read, the channel hand-off
//! and the endless loop around this decision are unverified plumbing in
//! the embedding.

use crate::codec::decode_reply_length;
use crate::codec::spec_reply_length;
use crate::table::CorrelationTable;
use vstd::prelude::*;

verus! {

/// Decides what to do with one captured datagram whose source has the
/// table key `source_key`: the probe token to notify together with the
/// echoed payload length, or nothing when the buffer does not parse as
/// an Echo Reply or no probe is in flight for that source. Such
/// datagrams are silently discarded, never an error.
pub fn handle_datagram(
    table: &CorrelationTable,
    buf: &[u8],
    source_key: u64,
    wraps_ip_header: bool,
) -> (r: Option<(u64, u16)>)
    ensures
        r == (match spec_reply_length(buf@, wraps_ip_header) {
            Some(len) => if table@.contains_key(source_key) {
                Some((table@[source_key], len))
            } else {
                None::<(u64, u16)>
            },
            None => None::<(u64, u16)>,
        }),
{
    match decode_reply_length(buf, wraps_ip_header) {
        Some(len) => match table.deliver(source_key) {
            Some(token) => Some((token, len)),
            None => None,
        },
        None => None,
    }
}

} // verus!
