//! A sliding-window request counter per client address.

use vstd::prelude::*;
use std::collections::HashMap;
use crate::clock::{get_current_datetime, Timestamp};

verus! {

/// The most requests one client may make within one window.
pub const REQUEST_LIMIT: usize = 120;

/// The length of the window, in seconds.
pub const WINDOW_SECONDS: u32 = 60;

/// A client's network address: the 32 bits of an IPv4 address or the 128
/// bits of an IPv6 address, most significant octet first.
#[derive(Clone, Copy, Debug, PartialEq, Eq, Structural, Hash)]
pub enum ClientIp {
    V4(u32),
    V6(u128),
}

/// Whether a request made at `t` still counts at `now`: it does while it is
/// less than one window old.
pub open spec fn counts_at(t: Timestamp, now: Timestamp) -> bool {
    t.nanos_since_epoch() > now.nanos_since_epoch() - WINDOW_SECONDS * 1_000_000_000
}

/// The requests of `window` that still count at `now`, in their order.
pub open spec fn retained(window: Seq<Timestamp>, now: Timestamp) -> Seq<Timestamp> {
    window.filter(|t: Timestamp| counts_at(t, now))
}

/// A client's window after a request at `now`: what no longer counts is
/// dropped, and the request itself is recorded last.
pub open spec fn slide(window: Seq<Timestamp>, now: Timestamp) -> Seq<Timestamp> {
    retained(window, now).push(now)
}

/// The window on record for `ip`: empty for a client never seen.
pub open spec fn window_of(windows: Map<ClientIp, Seq<Timestamp>>, ip: ClientIp) -> Seq<
    Timestamp,
> {
    if windows.contains_key(ip) {
        windows[ip]
    } else {
        Seq::empty()
    }
}

/// The windows after `ip` made a request at `now`.
pub open spec fn recorded(
    windows: Map<ClientIp, Seq<Timestamp>>,
    ip: ClientIp,
    now: Timestamp,
) -> Map<ClientIp, Seq<Timestamp>> {
    windows.insert(ip, slide(window_of(windows, ip), now))
}

/// Whether a request of `ip` at `now` is let through: it is while the
/// window, the request itself included, holds no more than the limit.
pub open spec fn admitted(
    windows: Map<ClientIp, Seq<Timestamp>>,
    ip: ClientIp,
    now: Timestamp,
) -> bool {
    slide(window_of(windows, ip), now).len() <= REQUEST_LIMIT
}

/// What one check at `now` does: the new windows and the verdict.
pub open spec fn checked(
    before: Map<ClientIp, Seq<Timestamp>>,
    after: Map<ClientIp, Seq<Timestamp>>,
    ip: ClientIp,
    now: Timestamp,
    verdict: Result<(), String>,
) -> bool {
    &&& after == recorded(before, ip, now)
    &&& verdict.is_ok() == admitted(before, ip, now)
    &&& verdict matches Err(message) ==> message@ == "IP is rate limited :("@
}

/// The request windows of all clients seen so far.
pub struct RateLimiter {
    v4: HashMap<u32, Vec<Timestamp>>,
    v6: HashMap<u128, Vec<Timestamp>>,
}

impl View for RateLimiter {
    type V = Map<ClientIp, Seq<Timestamp>>;

    closed spec fn view(&self) -> Map<ClientIp, Seq<Timestamp>> {
        Map::new(
            |ip: ClientIp|
                match ip {
                    ClientIp::V4(a) => self.v4@.contains_key(a),
                    ClientIp::V6(a) => self.v6@.contains_key(a),
                },
            |ip: ClientIp|
                match ip {
                    ClientIp::V4(a) => self.v4@[a]@,
                    ClientIp::V6(a) => self.v6@[a]@,
                },
        )
    }
}

/// The entries of `window` that still count at `now`, in their order.
fn retain_recent(window: &Vec<Timestamp>, now: &Timestamp) -> (kept: Vec<Timestamp>)
    ensures
        kept@ == retained(window@, *now),
{
    let mut kept: Vec<Timestamp> = Vec::new();
    let mut i: usize = 0;
    while i < window.len()
        invariant
            i <= window.len(),
            kept@ == retained(window@.take(i as int), *now),
        decreases window.len() - i,
    {
        let t = window[i];
        proof {
            let next = window@.take(i + 1);
            assert(next.drop_last() == window@.take(i as int));
            assert(next.last() == t);
            reveal(Seq::filter);
        }
        if t.is_within(WINDOW_SECONDS, now) {
            kept.push(t);
        }
        i += 1;
    }
    proof {
        assert(window@.take(window.len() as int) == window@);
    }
    kept
}

impl Default for RateLimiter {
    /// A limiter that has seen no client.
    fn default() -> (limiter: RateLimiter)
        ensures
            limiter@ == Map::<ClientIp, Seq<Timestamp>>::empty(),
    {
        RateLimiter::new()
    }
}

impl RateLimiter {
    /// A limiter that has seen no client.
    pub fn new() -> (limiter: RateLimiter)
        ensures
            limiter@ == Map::<ClientIp, Seq<Timestamp>>::empty(),
    {
        let limiter = RateLimiter { v4: HashMap::new(), v6: HashMap::new() };
        assert(limiter@ =~= Map::<ClientIp, Seq<Timestamp>>::empty());
        limiter
    }

    /// The requests on record for `ip_addr`, oldest first.
    pub fn window(&self, ip_addr: ClientIp) -> (window: Vec<Timestamp>)
        ensures
            window@ == window_of(self@, ip_addr),
    {
        broadcast use vstd::std_specs::hash::group_hash_axioms;

        let seen: Option<&Vec<Timestamp>> = match ip_addr {
            ClientIp::V4(a) => self.v4.get(&a),
            ClientIp::V6(a) => self.v6.get(&a),
        };
        let mut window: Vec<Timestamp> = Vec::new();
        if let Some(held) = seen {
            let mut i: usize = 0;
            while i < held.len()
                invariant
                    i <= held.len(),
                    window@ == held@.take(i as int),
                decreases held.len() - i,
            {
                window.push(held[i]);
                proof {
                    assert(held@.take(i + 1) == held@.take(i as int).push(held@[i as int]));
                }
                i += 1;
            }
            proof {
                assert(held@.take(held.len() as int) == held@);
            }
        }
        window
    }

    /// Records a request of `ip_addr` at `now` and says whether it is let
    /// through. The request is recorded whatever the verdict, so a refused
    /// request counts against the ones that follow it.
    pub fn check_at(&mut self, ip_addr: ClientIp, now: Timestamp) -> (verdict: Result<(), String>)
        ensures
            checked(old(self)@, final(self)@, ip_addr, now, verdict),
            forall|i: int|
                0 <= i < window_of(final(self)@, ip_addr).len() ==> counts_at(
                    #[trigger] window_of(final(self)@, ip_addr)[i],
                    now,
                ),
    {
        broadcast use vstd::std_specs::hash::group_hash_axioms;

        let seen: Option<Vec<Timestamp>> = match ip_addr {
            ClientIp::V4(a) => self.v4.remove(&a),
            ClientIp::V6(a) => self.v6.remove(&a),
        };
        let window: Vec<Timestamp> = match seen {
            Some(w) => w,
            None => Vec::new(),
        };
        assert(window@ == window_of(old(self)@, ip_addr));
        let mut kept = retain_recent(&window, &now);
        kept.push(now);
        let count: usize = kept.len();
        proof {
            assert forall|i: int| 0 <= i < kept@.len() implies counts_at(#[trigger] kept@[i], now) by {
                if i < kept@.len() - 1 {
                    window@.lemma_filter_pred(|t: Timestamp| counts_at(t, now), i);
                }
            }
        }
        match ip_addr {
            ClientIp::V4(a) => {
                self.v4.insert(a, kept);
            },
            ClientIp::V6(a) => {
                self.v6.insert(a, kept);
            },
        }
        assert(final(self)@ =~= recorded(old(self)@, ip_addr, now));
        if count > REQUEST_LIMIT {
            Err("IP is rate limited :(".to_owned())
        } else {
            Ok(())
        }
    }

    /// Records a request of `ip_addr` at the instant the clock reads and says
    /// whether it is let through: `Ok` while the client has made no more than
    /// the limit within the window, the rate-limit message otherwise.
    pub fn check_if_rate_limited(&mut self, ip_addr: ClientIp) -> (verdict: Result<(), String>)
        ensures
            exists|now: Timestamp|
                now.is_normal() && checked(old(self)@, final(self)@, ip_addr, now, verdict),
    {
        let now = get_current_datetime();
        let verdict = self.check_at(ip_addr, now);
        assert(now.is_normal() && checked(old(self)@, self@, ip_addr, now, verdict));
        verdict
    }
}

} // verus!
