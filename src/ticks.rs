//! Tick arithmetic on 32-bit counters that wrap around.
//!
//! Instants and durations are tick counts at one fixed tick rate. Adding a
//! duration to an instant wraps at the 32-bit boundary, and instants are
//! compared modularly, as fugit does for `Instant<u32, _, _>`.
use vstd::prelude::*;

verus! {

/// Number of distinct values of a 32-bit tick counter.
pub const TICK_MODULUS: u64 = 0x1_0000_0000;

/// `at + d`, wrapping at the 32-bit boundary.
pub open spec fn tick_add(at: u32, d: u32) -> u32 {
    ((at as int + d as int) % (TICK_MODULUS as int)) as u32
}

/// The number of ticks from `from` forward to `to`, modulo 2^32.
pub open spec fn ticks_since(from: u32, to: u32) -> u32 {
    ((to as int - from as int) % (TICK_MODULUS as int)) as u32
}

/// fugit's order on `u32` instants: `a <= b` holds when they are equal, or
/// when `a - b` (wrapping) is at least half the range, which fugit reads as
/// `b` having wrapped past `a`.
pub open spec fn instant_le(a: u32, b: u32) -> bool {
    a == b || ticks_since(b, a) >= 0x7FFF_FFFF
}

/// The counter value after one more tick.
pub open spec fn tick_after(t: u32) -> u32 {
    tick_add(t, 1)
}

/// Relies on fugit's `Instant<u32, 1, HZ> + Duration<u32, 1, HZ>`: for the
/// same rate on both sides the tick counts are added with `wrapping_add`
/// (`checked_add_duration`, which always returns `Some` then).
#[verifier::external_body]
pub(crate) fn instant_plus<const HZ: u32>(at: u32, d: u32) -> (r: u32)
    ensures
        r == tick_add(at, d),
{
    (fugit::TimerInstantU32::<HZ>::from_ticks(at) + fugit::TimerDurationU32::<HZ>::from_ticks(d)).ticks()
}

/// Relies on fugit's `PartialOrd` for `Instant<u32, 1, HZ>` (`const_cmp`):
/// `a <= b` is `instant_le(a, b)`.
#[verifier::external_body]
pub(crate) fn instant_at_or_before<const HZ: u32>(a: u32, b: u32) -> (r: bool)
    ensures
        r == instant_le(a, b),
{
    fugit::TimerInstantU32::<HZ>::from_ticks(a) <= fugit::TimerInstantU32::<HZ>::from_ticks(b)
}

/// The value that the counter takes on the next tick: one more, wrapping to
/// zero after `u32::MAX`.
pub fn next_tick(t: u32) -> (r: u32)
    ensures
        r == tick_after(t),
{
    t.wrapping_add(1)
}

/// An instant is at or before another exactly when at most `2^31 + 1` ticks
/// lead from the first to the second.
pub proof fn lemma_instant_le_iff_close(a: u32, b: u32)
    ensures
        instant_le(a, b) <==> ticks_since(a, b) <= 0x8000_0001,
{
}

/// Once a deadline has been reached, it stays reached while the counter moves
/// on by `k` ticks, as long as no more than `2^31 + 1` ticks separate the
/// deadline from the new counter value.
pub proof fn lemma_reached_stays_reached(deadline: u32, now: u32, k: u32)
    requires
        instant_le(deadline, now),
        ticks_since(deadline, now) as int + k as int <= 0x8000_0001,
    ensures
        instant_le(deadline, tick_add(now, k)),
{
    lemma_instant_le_iff_close(deadline, now);
    lemma_instant_le_iff_close(deadline, tick_add(now, k));
}

/// Two ticks in a row advance the counter by exactly two, modulo 2^32.
pub proof fn lemma_two_ticks(t: u32)
    ensures
        tick_after(tick_after(t)) == tick_add(t, 2),
{
}

} // verus!
