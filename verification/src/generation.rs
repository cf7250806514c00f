//! The generation counter: each scheduling request takes a ticket, and a
//! pending switch fires only while its ticket is still the current one.

use crate::track::TrackInfo;
use vstd::prelude::*;

verus! {

/// The counter after one more request, given its value before: one more,
/// starting over after the last value.
pub open spec fn next_generation(previous: u64) -> u64 {
    if previous == u64::MAX {
        0
    } else {
        (previous + 1) as u64
    }
}

/// The counter after `n` more requests.
pub open spec fn advanced(start: u64, n: nat) -> u64
    decreases n,
{
    if n == 0 {
        start
    } else {
        next_generation(advanced(start, (n - 1) as nat))
    }
}

/// The ticket of the request that found the counter at `previous`.
pub fn ticket_after(previous: u64) -> (ticket: u64)
    ensures
        ticket == next_generation(previous),
{
    previous.wrapping_add(1)
}

/// Whether a pending switch with `ticket` may still fire when the counter
/// reads `current`.
pub fn may_fire(current: u64, ticket: u64) -> (r: bool)
    ensures
        r == (current == ticket),
{
    current == ticket
}

/// What a pending switch hands to the consumer when it wakes: its track
/// while its ticket is current, nothing once it has been overtaken.
pub fn fire_if_current(track: TrackInfo, ticket: u64, current: u64) -> (r: Option<TrackInfo>)
    ensures
        current == ticket ==> r == Some(track),
        current != ticket ==> r is None,
{
    if may_fire(current, ticket) {
        Some(track)
    } else {
        None
    }
}

/// Counting on `n` requests from `start` adds `n`, modulo the number of
/// values the counter has.
pub proof fn lemma_advanced_adds(start: u64, n: nat)
    ensures
        advanced(start, n) == (start + n) % 0x1_0000_0000_0000_0000,
    decreases n,
{
    if n > 0 {
        lemma_advanced_adds(start, (n - 1) as nat);
        let before = advanced(start, (n - 1) as nat);
        let m: int = 0x1_0000_0000_0000_0000;
        assert(before == (start + n - 1) % m);
        if before == u64::MAX {
            assert((start + n) % m == 0) by {
                vstd::arithmetic::div_mod::lemma_fundamental_div_mod(start + n - 1, m);
                let q = (start + n - 1) / m;
                assert(start + n == m * (q + 1)) by (nonlinear_arith)
                    requires
                        start + n - 1 == m * q + (m - 1),
                ;
                vstd::arithmetic::div_mod::lemma_mod_multiples_basic(q + 1, m);
                assert(m * (q + 1) == (q + 1) * m) by (nonlinear_arith);
            }
        } else {
            assert((start + n) % m == before + 1) by {
                vstd::arithmetic::div_mod::lemma_fundamental_div_mod(start + n - 1, m);
                let q = (start + n - 1) / m;
                vstd::arithmetic::div_mod::lemma_fundamental_div_mod_converse(
                    start + n,
                    m,
                    q,
                    before + 1,
                );
            }
        }
    }
}

/// A ticket is current when it is taken, and no longer once the counter
/// has moved on: after any further requests, fewer than the counter has
/// values, a pending switch with that ticket does not fire.
pub proof fn lemma_overtaken_ticket_is_stale(ticket: u64, n: nat)
    requires
        0 < n < 0x1_0000_0000_0000_0000,
    ensures
        advanced(ticket, 0) == ticket,
        advanced(ticket, n) != ticket,
{
    lemma_advanced_adds(ticket, n);
    let m: int = 0x1_0000_0000_0000_0000;
    if (ticket + n) % m == ticket {
        vstd::arithmetic::div_mod::lemma_fundamental_div_mod(ticket + n, m);
        let q = (ticket + n) / m;
        assert(n == m * q);
        assert(false) by (nonlinear_arith)
            requires
                0 < n < m,
                n == m * q,
                m > 0,
        ;
    }
}

/// Counting on `k` requests and then `m` more is counting on `k + m`.
pub proof fn lemma_advanced_in_two_goes(start: u64, k: nat, m: nat)
    ensures
        advanced(advanced(start, k), m) == advanced(start, k + m),
    decreases m,
{
    if m > 0 {
        lemma_advanced_in_two_goes(start, k, (m - 1) as nat);
        assert((k + m - 1) as nat == k + (m - 1) as nat);
    }
}

/// The ticket taken at the `k`-th request is the current one after `n`
/// requests exactly when no request was made since, as long as fewer
/// requests lie between the two than the counter has values.
pub proof fn lemma_ticket_current_iff_latest(start: u64, k: nat, n: nat)
    requires
        k <= n < k + 0x1_0000_0000_0000_0000,
    ensures
        (advanced(start, k) == advanced(start, n)) <==> k == n,
{
    if k < n {
        lemma_advanced_in_two_goes(start, k, (n - k) as nat);
        lemma_overtaken_ticket_is_stale(advanced(start, k), (n - k) as nat);
    }
}

} // verus!
