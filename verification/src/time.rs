//! The frame timer: wall-clock time elapsed between two ticks.

use vstd::prelude::*;
use std::time::{Duration, Instant};

verus! {

/// `std::time::Instant`: a reading of the monotonic clock, carried through as
/// an opaque value.
#[verifier::external_type_specification]
#[verifier::external_body]
pub struct ExInstant(Instant);

/// `Instant::now`: a reading of the monotonic clock. Nothing is claimed of
/// the reading.
#[verifier::external_body]
fn clock_now() -> (now: Instant) {
    Instant::now()
}

/// `Instant::elapsed`: the time that has passed since `since` was read.
/// Nothing is claimed of the result: it depends on the clock.
#[verifier::external_body]
fn clock_elapsed(since: &Instant) -> (elapsed: Duration) {
    since.elapsed()
}

/// `Duration::as_nanos`: the whole duration in nanoseconds. Nothing is
/// claimed of the number, since a `Duration` is opaque here.
#[verifier::external_body]
fn duration_nanos(duration: &Duration) -> (nanos: u128) {
    duration.as_nanos()
}

/// The mathematical content of a [`DeltaTime`], in nanoseconds on the timer's
/// own clock, which starts at zero when the timer is made.
pub struct TimerView {
    /// Time between the last two ticks.
    pub delta: nat,
    /// Clock reading at the last tick: the reference point of the next delta.
    pub reference: nat,
}

impl TimerView {
    /// A timer that has not ticked yet.
    pub open spec fn initial() -> TimerView {
        TimerView { delta: 0, reference: 0 }
    }

    /// A tick at clock reading `now`: the delta is the time since the
    /// reference point, and `now` becomes the new reference point. A reading
    /// that lies before the reference point gives a delta of zero.
    pub open spec fn advanced_to(self, now: nat) -> TimerView {
        TimerView {
            delta: if now >= self.reference {
                (now - self.reference) as nat
            } else {
                0
            },
            reference: now,
        }
    }
}

/// Measures the wall-clock time between ticks. The delta is observed, never
/// clamped: nothing here caps the frame rate.
pub struct DeltaTime {
    delta_time: u128,
    prev_time: u128,
    origin: Instant,
}

impl View for DeltaTime {
    type V = TimerView;

    closed spec fn view(&self) -> TimerView {
        TimerView { delta: self.delta_time as nat, reference: self.prev_time as nat }
    }
}

impl DeltaTime {
    /// A timer whose clock starts now, with a delta of zero.
    pub fn new() -> (timer: Self)
        ensures
            timer@ == TimerView::initial(),
    {
        DeltaTime { delta_time: 0, prev_time: 0, origin: clock_now() }
    }

    /// The current reading of the timer's clock, in nanoseconds since the
    /// timer was made.
    pub fn now(&self) -> (now: u128) {
        let elapsed = clock_elapsed(&self.origin);
        duration_nanos(&elapsed)
    }

    /// Ticks at the clock reading `now`.
    pub fn advance_to(&mut self, now: u128)
        ensures
            final(self)@ == old(self)@.advanced_to(now as nat),
    {
        self.delta_time = if now >= self.prev_time {
            now - self.prev_time
        } else {
            0
        };
        self.prev_time = now;
    }

    /// Ticks at the current reading of the clock: the delta becomes the time
    /// elapsed since the previous tick.
    pub fn update(&mut self)
        ensures
            exists|now: nat| final(self)@ == old(self)@.advanced_to(now),
    {
        let now = self.now();
        self.advance_to(now);
        assert(self@ == old(self)@.advanced_to(now as nat));
    }

    /// Time between the last two ticks, in nanoseconds.
    pub fn delta_time(&self) -> (nanos: u128)
        ensures
            nanos == self@.delta,
    {
        self.delta_time
    }
}

impl Default for DeltaTime {
    fn default() -> (timer: Self)
        ensures
            timer@ == TimerView::initial(),
    {
        DeltaTime::new()
    }
}

} // verus!
