//! Histories of requests, and what the limiter makes of them.
//!
//! A history is the sequence of requests that a fresh limiter was handed,
//! each with the client that made it and the instant it was checked at. The
//! theorems here say which requests of a history are let through, stated over
//! the history alone.

use vstd::prelude::*;
use crate::clock::Timestamp;
use crate::rate_limit::{
    admitted, counts_at, recorded, retained, slide, window_of, ClientIp, REQUEST_LIMIT,
};

verus! {

/// The windows of a fresh limiter after the requests of `calls`, in order.
pub open spec fn after(calls: Seq<(ClientIp, Timestamp)>) -> Map<ClientIp, Seq<Timestamp>>
    decreases calls.len(),
{
    if calls.len() == 0 {
        Map::empty()
    } else {
        recorded(after(calls.drop_last()), calls.last().0, calls.last().1)
    }
}

/// Whether request `k` of `calls` is let through.
pub open spec fn let_through(calls: Seq<(ClientIp, Timestamp)>, k: int) -> bool {
    admitted(after(calls.take(k)), calls[k].0, calls[k].1)
}

/// The instants of the requests that `ip` made in `calls` and that still
/// count at `now`, in order.
pub open spec fn counting(calls: Seq<(ClientIp, Timestamp)>, ip: ClientIp, now: Timestamp) -> Seq<
    Timestamp,
>
    decreases calls.len(),
{
    if calls.len() == 0 {
        Seq::empty()
    } else {
        let earlier = counting(calls.drop_last(), ip, now);
        if calls.last().0 == ip && counts_at(calls.last().1, now) {
            earlier.push(calls.last().1)
        } else {
            earlier
        }
    }
}

/// How many requests the client of request `k` has made within the window
/// that ends with request `k`, that request included.
pub open spec fn recent_requests(calls: Seq<(ClientIp, Timestamp)>, k: int) -> nat {
    counting(calls.take(k + 1), calls[k].0, calls[k].1).len()
}

/// The clock never stepped back between two requests of `calls`.
pub open spec fn in_order(calls: Seq<(ClientIp, Timestamp)>) -> bool {
    forall|i: int, j: int|
        0 <= i <= j < calls.len() ==> calls[i].1.nanos_since_epoch()
            <= calls[j].1.nanos_since_epoch()
}

/// No request of `calls` was made after `now`.
pub open spec fn not_after(calls: Seq<(ClientIp, Timestamp)>, now: Timestamp) -> bool {
    forall|i: int|
        0 <= i < calls.len() ==> (#[trigger] calls[i]).1.nanos_since_epoch()
            <= now.nanos_since_epoch()
}

/// Dropping what no longer counts at `later` from what counted at `earlier`
/// leaves what counts at `later`.
proof fn lemma_counting_later(
    calls: Seq<(ClientIp, Timestamp)>,
    ip: ClientIp,
    earlier: Timestamp,
    later: Timestamp,
)
    requires
        earlier.nanos_since_epoch() <= later.nanos_since_epoch(),
    ensures
        retained(counting(calls, ip, earlier), later) == counting(calls, ip, later),
    decreases calls.len(),
{
    reveal(Seq::filter);
    if calls.len() > 0 {
        let rest = calls.drop_last();
        let t = calls.last().1;
        lemma_counting_later(rest, ip, earlier, later);
        if calls.last().0 == ip && counts_at(t, earlier) {
            let held = counting(rest, ip, earlier);
            assert(held.push(t).drop_last() == held);
        }
    }
}

/// What a fresh limiter holds for `ip` after `calls` counts at any later
/// instant exactly as the requests of `ip` themselves do.
proof fn lemma_window_after(calls: Seq<(ClientIp, Timestamp)>, ip: ClientIp, now: Timestamp)
    requires
        in_order(calls),
        not_after(calls, now),
    ensures
        retained(window_of(after(calls), ip), now) == counting(calls, ip, now),
    decreases calls.len(),
{
    reveal(Seq::filter);
    if calls.len() > 0 {
        let rest = calls.drop_last();
        let (who, t) = calls.last();
        assert(in_order(rest));
        assert(calls[calls.len() - 1] == calls.last());
        if who == ip {
            assert(not_after(rest, t)) by {
                assert forall|i: int| 0 <= i < rest.len() implies (#[trigger] rest[i]).1.nanos_since_epoch()
                    <= t.nanos_since_epoch() by {
                    assert(rest[i] == calls[i]);
                }
            }
            lemma_window_after(rest, ip, t);
            lemma_counting_later(rest, ip, t, now);
            let held = counting(rest, ip, t);
            assert(window_of(after(calls), ip) == held.push(t));
            assert(held.push(t).drop_last() == held);
        } else {
            assert(not_after(rest, now)) by {
                assert forall|i: int| 0 <= i < rest.len() implies (#[trigger] rest[i]).1.nanos_since_epoch()
                    <= now.nanos_since_epoch() by {
                    assert(rest[i] == calls[i]);
                }
            }
            lemma_window_after(rest, ip, now);
            assert(window_of(after(calls), ip) == window_of(after(rest), ip));
        }
    }
}

/// While the clock does not step back, a request is let through exactly when
/// its client has made no more than the limit within the window that ends
/// with it. Requests that were refused are counted like the others.
pub proof fn lemma_verdict_counts_recent(calls: Seq<(ClientIp, Timestamp)>, k: int)
    requires
        in_order(calls),
        0 <= k < calls.len(),
    ensures
        let_through(calls, k) <==> recent_requests(calls, k) <= REQUEST_LIMIT,
{
    let before = calls.take(k);
    let (ip, now) = calls[k];
    assert(in_order(before)) by {
        assert forall|i: int, j: int| 0 <= i <= j < before.len() implies before[i].1.nanos_since_epoch()
            <= before[j].1.nanos_since_epoch() by {
            assert(before[i] == calls[i] && before[j] == calls[j]);
        }
    }
    assert(not_after(before, now)) by {
        assert forall|i: int| 0 <= i < before.len() implies (#[trigger] before[i]).1.nanos_since_epoch()
            <= now.nanos_since_epoch() by {
            assert(before[i] == calls[i]);
        }
    }
    lemma_window_after(before, ip, now);
    let upto = calls.take(k + 1);
    assert(upto.drop_last() == before);
    assert(upto.last() == calls[k]);
    assert(counting(upto, ip, now) == counting(before, ip, now).push(now));
    assert(slide(window_of(after(before), ip), now) == counting(upto, ip, now));
}

/// A client that never makes more than the limit within any window, while the
/// clock does not step back, has every request let through.
pub proof fn lemma_within_limit_all_admitted(calls: Seq<(ClientIp, Timestamp)>, ip: ClientIp)
    requires
        in_order(calls),
        forall|k: int|
            0 <= k < calls.len() && calls[k].0 == ip ==> #[trigger] recent_requests(calls, k)
                <= REQUEST_LIMIT,
    ensures
        forall|k: int| 0 <= k < calls.len() && calls[k].0 == ip ==> #[trigger] let_through(calls, k),
{
    assert forall|k: int| 0 <= k < calls.len() && calls[k].0 == ip implies #[trigger] let_through(
        calls,
        k,
    ) by {
        assert(recent_requests(calls, k) <= REQUEST_LIMIT);
        lemma_verdict_counts_recent(calls, k);
    }
}

/// A request that is one too many within its window is refused, and so is
/// every later one for which that still holds.
pub proof fn lemma_over_limit_refused(calls: Seq<(ClientIp, Timestamp)>, k: int)
    requires
        in_order(calls),
        0 <= k < calls.len(),
        recent_requests(calls, k) > REQUEST_LIMIT,
    ensures
        !let_through(calls, k),
{
    lemma_verdict_counts_recent(calls, k);
}

/// Nothing in `calls` is a request of `ip` that counts at `now`.
proof fn lemma_counting_none(calls: Seq<(ClientIp, Timestamp)>, ip: ClientIp, now: Timestamp)
    requires
        forall|j: int|
            0 <= j < calls.len() && (#[trigger] calls[j]).0 == ip ==> !counts_at(calls[j].1, now),
    ensures
        counting(calls, ip, now) == Seq::<Timestamp>::empty(),
    decreases calls.len(),
{
    if calls.len() > 0 {
        let rest = calls.drop_last();
        assert forall|j: int| 0 <= j < rest.len() && (#[trigger] rest[j]).0 == ip implies !counts_at(
            rest[j].1,
            now,
        ) by {
            assert(rest[j] == calls[j]);
        }
        lemma_counting_none(rest, ip, now);
        assert(calls[calls.len() - 1] == calls.last());
    }
}

/// The window slides: a request whose client made its earlier requests a
/// full window ago or longer is let through, however many those were.
pub proof fn lemma_old_requests_forgotten(calls: Seq<(ClientIp, Timestamp)>, k: int)
    requires
        in_order(calls),
        0 <= k < calls.len(),
        forall|j: int|
            0 <= j < k && (#[trigger] calls[j]).0 == calls[k].0 ==> !counts_at(
                calls[j].1,
                calls[k].1,
            ),
    ensures
        recent_requests(calls, k) == 1,
        let_through(calls, k),
{
    let before = calls.take(k);
    let (ip, now) = calls[k];
    assert forall|j: int| 0 <= j < before.len() && (#[trigger] before[j]).0 == ip implies !counts_at(
        before[j].1,
        now,
    ) by {
        assert(before[j] == calls[j]);
    }
    lemma_counting_none(before, ip, now);
    let upto = calls.take(k + 1);
    assert(upto.drop_last() == before);
    assert(upto.last() == calls[k]);
    assert(counting(upto, ip, now) == counting(before, ip, now).push(now));
    lemma_verdict_counts_recent(calls, k);
}

} // verus!
