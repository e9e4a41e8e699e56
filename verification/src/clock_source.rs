//! The clock source: a free-running ticker that counts the real time since
//! it was started, and never counts backwards.
//!
//! The ticker measures time with an instant of the `web_time` crate, which
//! reads the browser's performance clock on the web and the operating
//! system's monotonic clock elsewhere. What a measurement yields depends on
//! when it is made, so nothing is claimed of it. The ticker itself keeps
//! the latest reading it has handed out and hands out none below it: that
//! its readings never decrease is proved, whatever is measured.

use vstd::prelude::*;
use crate::clock::SessionClock;
use crate::engine::Engine;

verus! {

/// The period, in milliseconds, at which the ticker is read while the timer
/// is shown.
pub const TICK_PERIOD_MILLIS: u64 = 100;

/// `web_time::Instant`, a point on the ticker's time line. It is carried as
/// it is; nothing is known of what it holds.
#[verifier::external_type_specification]
#[verifier::external_body]
pub struct ExInstant(web_time::Instant);

/// The free-running ticker.
pub struct ClockSource {
    origin: web_time::Instant,
    latest: u64,
}

/// The reading that stands for a measurement of `millis` milliseconds: the
/// measurement itself, held at `u64::MAX` if it is beyond what a `u64` can
/// count.
pub open spec fn saturated_millis(millis: nat) -> nat {
    if millis > u64::MAX {
        u64::MAX as nat
    } else {
        millis
    }
}

/// The reading a ticker hands out when `millis` milliseconds were measured
/// and the latest reading before was `latest`: what was measured, unless
/// that lies below the latest reading, which is handed out again.
pub open spec fn next_reading(latest: nat, millis: nat) -> nat {
    if saturated_millis(millis) > latest {
        saturated_millis(millis)
    } else {
        latest
    }
}

/// `web_time::Instant::now`: the present instant. Nothing is claimed of it.
/// On the web the call needs the page's `Performance` object and panics
/// where there is none, as in a worklet.
#[verifier::external_body]
fn instant_now() -> web_time::Instant {
    web_time::Instant::now()
}

/// `web_time::Instant::elapsed`: the time that has passed since `origin`,
/// zero if `origin` lies ahead. Nothing is claimed of it: it depends on when
/// the call is made. It reads the present instant as `Instant::now` does,
/// and needs on the web what that call needs.
#[verifier::external_body]
fn elapsed_since(origin: &web_time::Instant) -> core::time::Duration {
    origin.elapsed()
}

/// `Duration::as_millis`: the whole milliseconds in `span`. Nothing is
/// claimed of the number, since nothing is known of what `span` holds.
#[verifier::external_body]
fn whole_millis(span: &core::time::Duration) -> u128 {
    span.as_millis()
}

impl ClockSource {
    /// The instant the ticker counts from.
    pub closed spec fn origin(&self) -> web_time::Instant {
        self.origin
    }

    /// The latest reading the ticker has handed out; zero before the first.
    pub closed spec fn latest(&self) -> nat {
        self.latest as nat
    }

    /// Starts a ticker that counts from now. It has handed out no reading yet.
    pub fn start() -> (source: ClockSource)
        ensures
            source.latest() == 0,
    {
        ClockSource { origin: instant_now(), latest: 0 }
    }

    /// Takes a measurement of `millis` milliseconds since the start and
    /// returns the reading for it: the measurement in milliseconds, held at
    /// `u64::MAX`, and never below the reading handed out before. The
    /// ticker remembers the reading and goes on counting from the same
    /// start.
    pub fn take_measurement(&mut self, millis: u128) -> (now: u64)
        ensures
            now == next_reading(old(self).latest(), millis as nat),
            now >= old(self).latest(),
            final(self).latest() == now,
            final(self).origin() == old(self).origin(),
    {
        let measured: u64 = if millis > u64::MAX as u128 {
            u64::MAX
        } else {
            millis as u64
        };
        if measured > self.latest {
            self.latest = measured;
        }
        self.latest
    }

    /// Measures the time since the start and returns the reading for it.
    /// Whatever was measured, the reading is not below the one handed out
    /// before, and the ticker remembers it.
    fn read(&mut self) -> (now: u64)
        ensures
            now >= old(self).latest(),
            final(self).latest() == now,
            final(self).origin() == old(self).origin(),
    {
        let span = elapsed_since(&self.origin);
        let millis: u128 = whole_millis(&span);
        self.take_measurement(millis)
    }

    /// Reads the ticker and hands the reading to `clock`. Returns the
    /// reading. Whatever was measured, the reading is not below the one the
    /// ticker handed out before, and the clock has taken it as a tick: the
    /// session time has not moved back, and not at all if the clock is
    /// paused.
    pub fn feed(&mut self, clock: &mut SessionClock) -> (now: u64)
        requires
            old(clock).wf(),
        ensures
            now >= old(self).latest(),
            final(self).latest() == now,
            final(self).origin() == old(self).origin(),
            final(clock).wf(),
            final(clock)@ == old(clock)@.tick(now as nat),
            final(clock)@.global() >= old(clock)@.global(),
            !old(clock)@.active ==> final(clock)@.global() == old(clock)@.global(),
    {
        let now = self.read();
        clock.tick(now);
        now
    }

    /// Reads the ticker and hands the reading to the clock of `engine`.
    /// Returns the reading. Whatever was measured, the reading is not below
    /// the one the ticker handed out before, and the engine has taken it as
    /// a tick: only its clock can have changed.
    pub fn drive(&mut self, engine: &mut Engine) -> (now: u64)
        requires
            old(engine).wf(),
        ensures
            now >= old(self).latest(),
            final(self).latest() == now,
            final(self).origin() == old(self).origin(),
            final(engine).wf(),
            final(engine)@ == old(engine)@.tick(now as nat),
    {
        let now = self.read();
        engine.tick(now);
        now
    }
}

/// A ticker never counts backwards: of two measurements taken one after the
/// other, whatever they yield, the second reading is not below the first.
pub proof fn readings_never_decrease(latest: nat, first: nat, second: nat)
    ensures
        next_reading(latest, first) >= latest,
        next_reading(next_reading(latest, first), second) >= next_reading(latest, first),
        first <= second ==> next_reading(next_reading(latest, first), second) == next_reading(
            latest,
            second,
        ),
{
}

/// A ticker whose measurements never decrease and fit in a `u64` hands out
/// exactly what it measures.
pub proof fn honest_measurements_pass_unchanged(latest: nat, millis: nat)
    requires
        latest <= millis <= u64::MAX,
    ensures
        next_reading(latest, millis) == millis,
{
}

} // verus!
