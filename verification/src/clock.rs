//! The session clock: a pausable count of elapsed time, fed by the readings
//! of a free-running ticker.
//!
//! All times are whole milliseconds. The clock keeps two accumulators, the
//! time banked before the latest resume and the ticker reading taken at that
//! resume, and changes them only when it is paused or resumed.

use vstd::prelude::*;

verus! {

/// What a session clock is, as plain numbers.
pub struct ClockModel {
    /// Session time banked up to the latest pause, or up to the latest
    /// resume while running.
    pub accumulated: nat,
    /// The ticker reading taken at the latest resume.
    pub anchor: nat,
    /// The latest ticker reading.
    pub reading: nat,
    /// Whether the session is running.
    pub active: bool,
}

/// One thing that can happen to a session clock.
pub enum ClockEvent {
    /// The ticker reports a reading.
    Tick(nat),
    /// The operator pauses or resumes the session.
    Toggle,
}

impl ClockModel {
    /// A clock that has seen nothing: paused, at zero.
    pub open spec fn initial() -> ClockModel {
        ClockModel { accumulated: 0, anchor: 0, reading: 0, active: false }
    }

    /// The session time: what was banked, plus, while running, what the
    /// ticker has counted since the latest resume.
    pub open spec fn global(self) -> nat {
        if self.active {
            (self.accumulated + (self.reading - self.anchor)) as nat
        } else {
            self.accumulated
        }
    }

    /// The session never ran for longer than the ticker did, and a running
    /// clock was resumed at a reading the ticker has reached.
    pub open spec fn wf(self) -> bool {
        if self.active {
            self.accumulated <= self.anchor <= self.reading
        } else {
            self.accumulated <= self.reading
        }
    }

    /// The clock after the ticker reported `now`. A reading older than the
    /// latest one is stale and changes nothing.
    pub open spec fn tick(self, now: nat) -> ClockModel {
        if now >= self.reading {
            ClockModel { reading: now, ..self }
        } else {
            self
        }
    }

    /// The clock after a pause or a resume. Pausing banks the session time;
    /// resuming anchors the clock at the latest reading.
    pub open spec fn toggle(self) -> ClockModel {
        if self.active {
            ClockModel { accumulated: self.global(), active: false, ..self }
        } else {
            ClockModel { anchor: self.reading, active: true, ..self }
        }
    }

    /// The clock after one event.
    pub open spec fn apply(self, event: ClockEvent) -> ClockModel {
        match event {
            ClockEvent::Tick(now) => self.tick(now),
            ClockEvent::Toggle => self.toggle(),
        }
    }

    /// The clock after a sequence of events, first to last.
    pub open spec fn run(self, events: Seq<ClockEvent>) -> ClockModel
        decreases events.len(),
    {
        if events.len() == 0 {
            self
        } else {
            self.run(events.drop_last()).apply(events.last())
        }
    }
}

/// The pausable session clock.
pub struct SessionClock {
    accumulated: u64,
    anchor: u64,
    reading: u64,
    active: bool,
}

impl View for SessionClock {
    type V = ClockModel;

    closed spec fn view(&self) -> ClockModel {
        ClockModel {
            accumulated: self.accumulated as nat,
            anchor: self.anchor as nat,
            reading: self.reading as nat,
            active: self.active,
        }
    }
}

impl SessionClock {
    /// The clock's accumulators are consistent with its latest reading.
    pub open spec fn wf(&self) -> bool {
        self@.wf()
    }

    /// A paused clock at zero.
    pub fn new() -> (clock: SessionClock)
        ensures
            clock.wf(),
            clock@ == ClockModel::initial(),
    {
        SessionClock { accumulated: 0, anchor: 0, reading: 0, active: false }
    }

    /// Whether the session is running.
    pub fn is_active(&self) -> (active: bool)
        ensures
            active == self@.active,
    {
        self.active
    }

    /// The latest ticker reading the clock has taken.
    pub fn reading(&self) -> (reading: u64)
        ensures
            reading == self@.reading,
    {
        self.reading
    }

    /// The session time in milliseconds.
    pub fn global_timer(&self) -> (elapsed: u64)
        requires
            self.wf(),
        ensures
            elapsed == self@.global(),
            elapsed <= self@.reading,
    {
        if self.active {
            self.accumulated + (self.reading - self.anchor)
        } else {
            self.accumulated
        }
    }

    /// Takes a ticker reading. While the session runs, the session time
    /// follows the reading; while it is paused, the session time stands still.
    pub fn tick(&mut self, now: u64)
        requires
            old(self).wf(),
        ensures
            final(self).wf(),
            final(self)@ == old(self)@.tick(now as nat),
            final(self)@.global() >= old(self)@.global(),
            !old(self)@.active ==> final(self)@.global() == old(self)@.global(),
    {
        if now >= self.reading {
            self.reading = now;
        }
    }

    /// Pauses a running session or resumes a paused one, without moving the
    /// session time.
    pub fn toggle(&mut self)
        requires
            old(self).wf(),
        ensures
            final(self).wf(),
            final(self)@ == old(self)@.toggle(),
            final(self)@.active == !old(self)@.active,
            final(self)@.global() == old(self)@.global(),
    {
        if self.active {
            self.accumulated = self.accumulated + (self.reading - self.anchor);
            self.active = false;
        } else {
            self.anchor = self.reading;
            self.active = true;
        }
    }
}

/// A reading never moves the session time back; on a paused clock it does
/// not move it at all, and on a running clock a fresh reading moves it
/// forward by exactly what the ticker has counted since the reading before.
pub proof fn tick_follows_the_ticker(c: ClockModel, now: nat)
    requires
        c.wf(),
    ensures
        c.tick(now).wf(),
        c.tick(now).active == c.active,
        c.tick(now).global() >= c.global(),
        !c.active ==> c.tick(now).global() == c.global(),
        c.active && now >= c.reading ==> c.tick(now).global() == c.global() + (now - c.reading),
        now < c.reading ==> c.tick(now) == c,
{
}

/// Pausing and resuming are continuous: the session time is the same just
/// before and just after the switch.
pub proof fn toggle_is_continuous(c: ClockModel)
    requires
        c.wf(),
    ensures
        c.toggle().wf(),
        c.toggle().active == !c.active,
        c.toggle().global() == c.global(),
        c.toggle().reading == c.reading,
{
}

/// Whatever readings, pauses and resumes follow one another, the clock stays
/// consistent and the session time never decreases.
pub proof fn session_time_is_monotone(c: ClockModel, events: Seq<ClockEvent>)
    requires
        c.wf(),
    ensures
        c.run(events).wf(),
        c.run(events).global() >= c.global(),
        c.run(events).reading >= c.reading,
    decreases events.len(),
{
    if events.len() > 0 {
        let before = c.run(events.drop_last());
        session_time_is_monotone(c, events.drop_last());
        match events.last() {
            ClockEvent::Tick(now) => tick_follows_the_ticker(before, now),
            ClockEvent::Toggle => toggle_is_continuous(before),
        }
    }
}

/// No event of the sequence is a pause or a resume.
pub open spec fn only_ticks(events: Seq<ClockEvent>) -> bool {
    forall|i: int| 0 <= i < events.len() ==> events[i] is Tick
}

/// While paused, the session time is constant: readings alone, however many,
/// leave a paused clock paused and its session time unchanged.
pub proof fn paused_session_time_is_constant(c: ClockModel, events: Seq<ClockEvent>)
    requires
        c.wf(),
        !c.active,
        only_ticks(events),
    ensures
        !c.run(events).active,
        c.run(events).global() == c.global(),
    decreases events.len(),
{
    if events.len() > 0 {
        paused_session_time_is_constant(c, events.drop_last());
    }
}

/// A pause, any readings taken while paused, and the resume that follows
/// leave the session time exactly where it was when the pause began.
pub proof fn pause_and_resume_is_continuous(c: ClockModel, readings: Seq<ClockEvent>)
    requires
        c.wf(),
        c.active,
        only_ticks(readings),
    ensures
        c.toggle().run(readings).toggle().active,
        c.toggle().run(readings).toggle().global() == c.global(),
{
    paused_session_time_is_constant(c.toggle(), readings);
    session_time_is_monotone(c.toggle(), readings);
}

} // verus!
