//! Correlation table: the single point of mutual exclusion between
//! concurrent callers probing the same destination. The first caller
//! for a destination key registers a fresh probe token and becomes the
//! Primary, which runs the search; callers arriving while that entry is
//! live attach as Secondary to the same token and only await its
//! fan-out. The embedding holds the table under its lock, keys its
//! channels by the tokens, and retires an entry when its probe
//! resolves.

use std::collections::HashMap;
use vstd::prelude::*;

verus! {

/// What a caller becomes when asking for a destination: the Primary
/// runs the probe and publishes the result under the token; a
/// Secondary performs no network work and awaits the token's fan-out.
pub enum Registration {
    Primary { token: u64 },
    Secondary { token: u64 },
}

/// One live entry per destination key, each entry holding the token
/// under which the embedding keeps that probe's channels.
pub struct CorrelationTable {
    probes: HashMap<u64, u64>,
    next_token: u64,
}

impl View for CorrelationTable {
    type V = Map<u64, u64>;

    closed spec fn view(&self) -> Map<u64, u64> {
        self.probes@
    }
}

/// Relation between the table before and after a `register_or_attach`
/// call for `key` that returned `r`.
pub open spec fn register_rel(
    pre: CorrelationTable,
    post: CorrelationTable,
    key: u64,
    r: Registration,
) -> bool {
    match r {
        Registration::Secondary { token } => {
            &&& pre@.contains_key(key)
            &&& token == pre@[key]
            &&& post@ == pre@
            &&& post.next() == pre.next()
        },
        Registration::Primary { token } => {
            &&& !pre@.contains_key(key)
            &&& token == pre.next()
            &&& post@ == pre@.insert(key, token)
            &&& post.next() == pre.next() + 1
        },
    }
}

impl CorrelationTable {
    /// The next token to be minted.
    pub closed spec fn next(self) -> u64 {
        self.next_token
    }

    /// Every live token was minted before the next one.
    pub closed spec fn wf(self) -> bool {
        forall|k: u64| #[trigger] self.probes@.contains_key(k) ==> self.probes@[k] < self.next_token
    }

    pub fn new() -> (t: CorrelationTable)
        ensures
            t@ == Map::<u64, u64>::empty(),
            t.wf(),
            t.next() == 0,
    {
        CorrelationTable { probes: HashMap::new(), next_token: 0 }
    }

    /// True while fresh tokens remain; the embedding checks it before
    /// registering.
    pub fn can_register(&self) -> (b: bool)
        ensures
            b == (self.next() < u64::MAX),
    {
        self.next_token < u64::MAX
    }

    /// The atomic check-and-insert of probe creation: the first caller
    /// for `key` becomes Primary under a fresh token; a caller that
    /// finds a live entry attaches as Secondary to its token. The
    /// embedding calls this in one critical section under its write
    /// lock, so concurrent callers for one destination never both
    /// become Primary.
    pub fn register_or_attach(&mut self, key: u64) -> (r: Registration)
        requires
            old(self).wf(),
            old(self).next() < u64::MAX,
        ensures
            final(self).wf(),
            register_rel(*old(self), *final(self), key, r),
    {
        if self.probes.contains_key(&key) {
            let token = *self.probes.get(&key).unwrap();
            Registration::Secondary { token }
        } else {
            let token = self.next_token;
            self.next_token = self.next_token + 1;
            self.probes.insert(key, token);
            Registration::Primary { token }
        }
    }

    /// Looks up the in-flight probe a reply's source belongs to, if
    /// any; a reply with no matching entry is stale or unsolicited and
    /// is discarded by the caller.
    pub fn deliver(&self, key: u64) -> (r: Option<u64>)
        ensures
            r == (if self@.contains_key(key) {
                Some(self@[key])
            } else {
                None::<u64>
            }),
    {
        match self.probes.get(&key) {
            Some(token_ref) => Some(*token_ref),
            None => None,
        }
    }

    /// Removes `key`'s entry once its probe has resolved, so that a
    /// later caller starts a fresh probe instead of attaching to a
    /// dead fan-out.
    pub fn retire(&mut self, key: u64)
        requires
            old(self).wf(),
        ensures
            final(self).wf(),
            final(self)@ == old(self)@.remove(key),
            final(self).next() == old(self).next(),
    {
        self.probes.remove(&key);
    }
}

/// Packs a destination's IPv4 address and its vestigial port into one
/// table key. ICMP has no port concept; the port rides along for
/// address-type uniformity, and two probes are the same exactly when
/// this key is equal.
pub fn addr_key(ip: u32, port: u16) -> (key: u64)
    ensures
        key == ip * 0x10000 + port,
{
    (ip as u64) * 0x10000 + (port as u64)
}

/// Destination keys collide only for an equal address and port.
pub proof fn lemma_addr_key_injective(ip1: u32, port1: u16, ip2: u32, port2: u16)
    requires
        ip1 * 0x10000 + port1 == ip2 * 0x10000 + port2,
    ensures
        ip1 == ip2,
        port1 == port2,
{
}

/// At most one Primary per destination: whatever two back-to-back
/// registrations for the same key return, they are never both Primary,
/// and a Secondary following a Primary carries the Primary's token, so
/// both callers resolve to the same probe.
pub proof fn lemma_one_primary_per_destination(
    t0: CorrelationTable,
    t1: CorrelationTable,
    t2: CorrelationTable,
    key: u64,
    r1: Registration,
    r2: Registration,
)
    requires
        register_rel(t0, t1, key, r1),
        register_rel(t1, t2, key, r2),
    ensures
        !(r1 is Primary && r2 is Primary),
        r1 matches Registration::Primary { token: tok1 } ==> (r2 matches Registration::Secondary {
            token: tok2,
        } && tok2 == tok1),
{
}

/// Distinct destinations are independent: registering one key leaves
/// every other key's entry untouched, so probes to different hosts
/// never disturb each other's bookkeeping.
pub proof fn lemma_independent_destinations(
    t0: CorrelationTable,
    t1: CorrelationTable,
    key: u64,
    r: Registration,
    other: u64,
)
    requires
        register_rel(t0, t1, key, r),
        other != key,
    ensures
        t1@.contains_key(other) == t0@.contains_key(other),
        t0@.contains_key(other) ==> t1@[other] == t0@[other],
{
}

/// A Primary's token is fresh: no entry live at registration time
/// holds it, so replies routed by token never reach a dead probe.
pub proof fn lemma_primary_token_fresh(
    t0: CorrelationTable,
    t1: CorrelationTable,
    key: u64,
    token: u64,
)
    requires
        t0.wf(),
        register_rel(t0, t1, key, Registration::Primary { token }),
    ensures
        forall|k: u64| #[trigger] t0@.contains_key(k) ==> t0@[k] != token,
{
}

/// A retired destination probes afresh: a registration that follows
/// retirement is a Primary again, never an attachment to the resolved
/// probe.
pub proof fn lemma_retired_key_reprobes(
    t1: CorrelationTable,
    t2: CorrelationTable,
    t3: CorrelationTable,
    key: u64,
    r: Registration,
)
    requires
        t2@ == t1@.remove(key),
        register_rel(t2, t3, key, r),
    ensures
        r is Primary,
{
}

} // verus!
