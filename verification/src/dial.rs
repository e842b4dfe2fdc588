//! Counting the pulses of the rotary dial.
//!
//! A session starts when the dial leaves its rest position. Each pulse on the data line
//! counts one, unless it came too soon after the last counted pulse; the session ends when
//! the dial returns to rest, or at a pulse beyond the tenth. The count is then kept for a
//! while, for the next action to use.

use vstd::prelude::*;

use crate::indicator::{Indication, IndicatorAction};

verus! {

/// Pulses closer than this to the last counted one, in milliseconds, are bounces.
pub const MIN_TICK_MILLIS: u64 = 85;

/// The highest count a session reaches.
pub const MAX_DIAL_COUNT: u8 = 10;

/// How long a count is kept, in milliseconds.
pub const KEEP_COUNT_MILLIS: u64 = 5000;

/// How long to wait for the dial to return to rest before looking at the mode line, in
/// milliseconds.
pub const RETURN_TIMEOUT_MILLIS: u64 = 5000;

/// Something that happens during a session.
#[derive(Debug, Clone, Copy, PartialEq, Eq, Structural)]
pub enum DialEvent {
    /// A pulse on the data line, this many milliseconds after the last counted pulse (or the
    /// start of the session).
    Pulse(u64),
    /// The mode line rose or the wait for it timed out; after a short settling time the mode
    /// line reads low (`true`) or high (`false`).
    ModeEdge(bool),
}

/// What a session did with an event.
#[derive(Debug, Clone, Copy, PartialEq, Eq, Structural)]
pub enum DialStep {
    /// A pulse too close to the last one; nothing changes.
    Ignored,
    /// A pulse was counted; the time of the last counted pulse is now.
    Counted,
    /// The mode line bounced; the session goes on.
    Bounced,
    /// The session is over.
    Finished,
}

/// What a session with `count` pulses does with `event`: the step, and the count after it.
pub open spec fn dial_step(count: nat, event: DialEvent) -> (DialStep, nat) {
    match event {
        DialEvent::Pulse(elapsed) => if elapsed < MIN_TICK_MILLIS {
            (DialStep::Ignored, count)
        } else if count == MAX_DIAL_COUNT {
            (DialStep::Finished, count)
        } else {
            (DialStep::Counted, count + 1)
        },
        DialEvent::ModeEdge(mode_low) => if mode_low {
            (DialStep::Bounced, count)
        } else {
            (DialStep::Finished, count)
        },
    }
}

/// The count with which a session that has counted `count` pulses ends, when it takes
/// `events` one by one: none when the events run out before it ends.
pub open spec fn dial_run(count: nat, events: Seq<DialEvent>) -> Option<nat>
    decreases events.len(),
{
    if events.len() == 0 {
        None
    } else {
        let (step, next) = dial_step(count, events[0]);
        if step == DialStep::Finished {
            Some(next)
        } else {
            dial_run(next, events.drop_first())
        }
    }
}

/// A pulse that comes within `MIN_TICK_MILLIS` of the last counted one changes nothing:
/// wherever it is put among the events of a session, the session ends as it would without
/// it, with the same count. (Such a pulse does not move the time of the last counted pulse,
/// so the other pulses keep their times.)
pub proof fn lemma_fast_pulse_changes_nothing(count: nat, events: Seq<DialEvent>, k: int, elapsed: u64)
    requires
        0 <= k <= events.len(),
        elapsed < MIN_TICK_MILLIS,
    ensures
        dial_run(count, events.insert(k, DialEvent::Pulse(elapsed))) == dial_run(count, events),
    decreases k,
{
    let with = events.insert(k, DialEvent::Pulse(elapsed));
    if k == 0 {
        assert(with.drop_first() =~= events);
    } else {
        assert(with[0] == events[0]);
        assert(with.drop_first() =~= events.drop_first().insert(k - 1, DialEvent::Pulse(elapsed)));
        let (step, next) = dial_step(count, events[0]);
        if step != DialStep::Finished {
            lemma_fast_pulse_changes_nothing(next, events.drop_first(), k - 1, elapsed);
        }
    }
}

/// A session that starts within the limit ends, if it ends, with at most `MAX_DIAL_COUNT`
/// pulses.
pub proof fn lemma_dial_run_bounded(count: nat, events: Seq<DialEvent>)
    requires
        count <= MAX_DIAL_COUNT,
    ensures
        dial_run(count, events) matches Some(c) ==> c <= MAX_DIAL_COUNT,
    decreases events.len(),
{
    if events.len() > 0 {
        let (step, next) = dial_step(count, events[0]);
        if step != DialStep::Finished {
            lemma_dial_run_bounded(next, events.drop_first());
        }
    }
}

/// The count of a dialing session.
#[derive(Debug, Clone, Copy, PartialEq, Eq)]
pub struct DialSession {
    count: u8,
}

impl View for DialSession {
    type V = nat;

    closed spec fn view(&self) -> nat {
        self.count as nat
    }
}

impl DialSession {
    /// The count never goes past `MAX_DIAL_COUNT`.
    pub open spec fn wf(&self) -> bool {
        self@ <= MAX_DIAL_COUNT
    }

    /// A session that has counted nothing.
    pub fn new() -> (r: Self)
        ensures
            r.wf(),
            r@ == 0,
    {
        DialSession { count: 0 }
    }

    /// The pulses counted so far.
    pub fn count(&self) -> (r: u8)
        ensures
            r == self@,
    {
        self.count
    }

    /// Takes an event: a pulse within `MIN_TICK_MILLIS` of the last is ignored, a pulse when
    /// the count is at `MAX_DIAL_COUNT` ends the session, any other pulse is counted; a mode
    /// edge with the mode line low is a bounce, with it high it ends the session.
    pub fn on_event(&mut self, event: DialEvent) -> (r: DialStep)
        requires
            old(self).wf(),
        ensures
            final(self).wf(),
            (r, final(self)@) == dial_step(old(self)@, event),
            match event {
                DialEvent::Pulse(elapsed) => if elapsed < MIN_TICK_MILLIS {
                    r == DialStep::Ignored && final(self)@ == old(self)@
                } else if old(self)@ == MAX_DIAL_COUNT {
                    r == DialStep::Finished && final(self)@ == old(self)@
                } else {
                    r == DialStep::Counted && final(self)@ == old(self)@ + 1
                },
                DialEvent::ModeEdge(mode_low) => final(self)@ == old(self)@ && r == if mode_low {
                    DialStep::Bounced
                } else {
                    DialStep::Finished
                },
            },
    {
        match event {
            DialEvent::Pulse(elapsed) => {
                if elapsed < MIN_TICK_MILLIS {
                    return DialStep::Ignored;
                }
                if self.count == MAX_DIAL_COUNT {
                    return DialStep::Finished;
                }
                self.count = self.count + 1;
                DialStep::Counted
            },
            DialEvent::ModeEdge(mode_low) => {
                if mode_low {
                    DialStep::Bounced
                } else {
                    DialStep::Finished
                }
            },
        }
    }

    /// The count to keep when the session is over: none when nothing was counted.
    pub fn finish(&self) -> (r: Option<u8>)
        ensures
            r == (if self@ > 0 { Some(self@ as u8) } else { None }),
    {
        if self.count > 0 {
            Some(self.count)
        } else {
            None
        }
    }
}

/// A kept count is between 1 and `MAX_DIAL_COUNT`.
pub proof fn lemma_kept_count_in_range(s: DialSession)
    requires
        s.wf(),
    ensures
        s@ > 0 ==> 1 <= s@ <= MAX_DIAL_COUNT,
{
}

/// What the left light shows while a count is kept: one fire as long as the count is kept.
pub fn count_kept_indication() -> (r: IndicatorAction)
    ensures
        r == (IndicatorAction { left: Indication::SingleFire(KEEP_COUNT_MILLIS), right: Indication::Off }),
{
    IndicatorAction { left: Indication::SingleFire(KEEP_COUNT_MILLIS), right: Indication::Off }
}

/// What the watcher of a kept count does when its time is up.
#[derive(Debug, Clone, Copy, PartialEq, Eq, Structural)]
pub enum CountTimeout {
    /// The count is from the session being watched: forget it.
    Forget,
    /// A newer session ended since: leave the count, and stop watching.
    StopWatching,
}

/// The decision of the watcher of a kept count: `latest` is the end time of the last session
/// that kept a count, `watched` the one it was started for.
pub fn count_timeout(latest: u32, watched: u32) -> (r: CountTimeout)
    ensures
        r == (if latest == watched { CountTimeout::Forget } else { CountTimeout::StopWatching }),
{
    if latest != watched {
        CountTimeout::StopWatching
    } else {
        CountTimeout::Forget
    }
}

} // verus!
