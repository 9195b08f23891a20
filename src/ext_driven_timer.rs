//! A non-blocking timer over a tick counter that something else advances.
//!
//! The timer never writes the counter: it reads it to learn the current
//! instant and compares that with a deadline of its own. Instants and
//! durations are tick counts at `TIMER_HZ`.
use core::convert::Infallible;
use core::sync::atomic::{AtomicU32, Ordering};
use vstd::prelude::*;
use crate::ticks::{
    instant_at_or_before, instant_le, instant_plus, lemma_reached_stays_reached, tick_add, ticks_since,
};

verus! {

/// nb's `Error<E>`, with its variants `Other(E)` and `WouldBlock` visible, so
/// that polls can return `WouldBlock` and contracts can name it.
#[verifier::external_type_specification]
#[verifier::reject_recursive_types(E)]
pub struct ExNbError<E>(nb::Error<E>);

/// Whether a timer whose deadline is `deadline` has expired when the counter
/// reads `now`: it has a deadline, and the deadline is at or before `now`.
pub open spec fn expired(deadline: Option<u32>, now: u32) -> bool {
    match deadline {
        Some(end) => instant_le(end, now),
        None => false,
    }
}

/// The outcome of polling a timer whose deadline is `deadline` when the
/// counter reads `now`.
pub open spec fn poll_outcome(deadline: Option<u32>, now: u32) -> nb::Result<(), Infallible> {
    if expired(deadline, now) {
        Ok(())
    } else {
        Err(nb::Error::WouldBlock)
    }
}

/// The deadline set by a start at `now` for `duration` ticks.
pub open spec fn deadline_after(now: u32, duration: u32) -> Option<u32> {
    Some(tick_add(now, duration))
}

/// The deadline after a start at `now` for `duration` ticks from a timer
/// whose deadline was `deadline`: the old deadline plays no part.
pub open spec fn after_start(deadline: Option<u32>, now: u32, duration: u32) -> Option<u32> {
    deadline_after(now, duration)
}

/// The deadline after a cancel of a timer whose deadline was `deadline`.
pub open spec fn after_cancel(deadline: Option<u32>) -> Option<u32> {
    None
}

/// Cancelling an idle timer leaves it idle, and cancelling twice is the same
/// as cancelling once.
pub proof fn lemma_cancel_idempotent(deadline: Option<u32>)
    ensures
        after_cancel(None) == None::<u32>,
        after_cancel(after_cancel(deadline)) == after_cancel(deadline),
{
}

/// Two starts in succession leave only the deadline of the second in effect.
pub proof fn lemma_restart_replaces(deadline: Option<u32>, now1: u32, now2: u32, duration: u32)
    ensures
        after_start(after_start(deadline, now1, duration), now2, duration) == deadline_after(now2, duration),
{
}

/// Once a poll of an armed timer is ready, polls after the counter has moved
/// on by `k` ticks stay ready, as long as no more than `2^31 + 1` ticks then
/// separate the deadline from the counter (beyond that the modular order
/// reads the deadline as lying ahead again).
pub proof fn lemma_ready_stays_ready(deadline: Option<u32>, now: u32, k: u32)
    requires
        poll_outcome(deadline, now) is Ok,
        deadline matches Some(end) && ticks_since(end, now) as int + k as int <= 0x8000_0001,
    ensures
        poll_outcome(deadline, tick_add(now, k)) is Ok,
{
    let end = deadline->Some_0;
    lemma_reached_stays_reached(end, now, k);
}

/// A timer at `TIMER_HZ` driven by an external tick counter.
///
/// It is idle (no deadline) until `start`, and armed after it until `cancel`.
pub struct ExtDrivenTimer<'a, const TIMER_HZ: u32> {
    ticks: &'a AtomicU32,
    end_time: Option<u32>,
}

impl<'a, const TIMER_HZ: u32> View for ExtDrivenTimer<'a, TIMER_HZ> {
    type V = Option<u32>;

    /// The deadline, in ticks, or `None` while idle.
    closed spec fn view(&self) -> Option<u32> {
        self.end_time
    }
}

impl<'a, const TIMER_HZ: u32> ExtDrivenTimer<'a, TIMER_HZ> {
    /// The counter that this timer reads.
    pub closed spec fn counter(&self) -> &'a AtomicU32 {
        self.ticks
    }

    /// An idle timer reading `ticks`.
    pub fn new(ticks: &'a AtomicU32) -> (r: Self)
        ensures
            r@ == None::<u32>,
            r.counter() == ticks,
    {
        Self { ticks: ticks, end_time: None }
    }

    /// The counter's current value, widened to 64 bits.
    pub fn ticks(&mut self) -> (r: u64)
        ensures
            r <= u32::MAX,
            final(self)@ == old(self)@,
            final(self).counter() == old(self).counter(),
    {
        self.ticks.load(Ordering::Relaxed) as u64
    }

    /// The current instant: the counter's value as a tick count.
    pub fn now(&mut self) -> (r: u32)
        ensures
            final(self)@ == old(self)@,
            final(self).counter() == old(self).counter(),
    {
        self.ticks() as u32
    }

    /// Arms the timer to expire `duration` ticks after `now`, replacing any
    /// deadline it had.
    pub fn start_at(&mut self, now: u32, duration: u32)
        ensures
            final(self)@ == after_start(old(self)@, now, duration),
            final(self).counter() == old(self).counter(),
    {
        self.end_time = Some(instant_plus::<TIMER_HZ>(now, duration));
    }

    /// Arms the timer to expire `duration` ticks from the current instant,
    /// replacing any deadline it had. It cannot fail.
    pub fn start(&mut self, duration: u32) -> (r: Result<(), Infallible>)
        ensures
            r is Ok,
            exists|now: u32| final(self)@ == after_start(old(self)@, now, duration),
            final(self).counter() == old(self).counter(),
    {
        let now = self.now();
        self.start_at(now, duration);
        Ok(())
    }

    /// Disarms the timer. It cannot fail, and an idle timer stays idle.
    pub fn cancel(&mut self) -> (r: Result<(), Infallible>)
        ensures
            r is Ok,
            final(self)@ == after_cancel(old(self)@),
            final(self).counter() == old(self).counter(),
    {
        self.end_time = None;
        Ok(())
    }

    /// Polls the timer as if the counter read `now`: `Ok` once the deadline
    /// is reached, `WouldBlock` before that or while idle.
    pub fn wait_at(&self, now: u32) -> (r: nb::Result<(), Infallible>)
        ensures
            r == poll_outcome(self@, now),
    {
        match self.end_time {
            Some(end) => {
                if instant_at_or_before::<TIMER_HZ>(end, now) {
                    Ok(())
                } else {
                    Err(nb::Error::WouldBlock)
                }
            },
            None => Err(nb::Error::WouldBlock),
        }
    }

    /// Polls the timer against the current instant, without blocking and
    /// without changing its state.
    pub fn wait(&mut self) -> (r: nb::Result<(), Infallible>)
        ensures
            exists|now: u32| r == poll_outcome(old(self)@, now),
            final(self)@ == old(self)@,
            final(self).counter() == old(self).counter(),
    {
        let now = self.now();
        self.wait_at(now)
    }
}

} // verus!
