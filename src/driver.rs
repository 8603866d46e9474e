//! The decisions of the refresh loop: what to do next, given what just happened.
use vstd::prelude::*;

verus! {

/// Where the loop stands.
#[derive(Clone, Copy, Debug, PartialEq, Eq, Structural)]
pub enum Phase {
    /// Waiting for a snapshot to be collected and shown.
    Collecting,
    /// Waiting for the input poll's outcome.
    Polling,
    /// Waiting for the pause between ticks to end.
    Sleeping,
    /// The loop is over.
    Finished,
}

/// What the caller reports after carrying out an action.
#[derive(Clone, Copy, Debug, PartialEq, Eq, Structural)]
pub enum Event {
    /// A snapshot was collected and shown.
    Rendered,
    /// The input poll saw this key.
    KeyPressed(char),
    /// The input poll window passed without a key.
    NoKey,
    /// The pause between ticks is over.
    Slept,
}

/// What the caller is asked to do next.
#[derive(Clone, Copy, Debug, PartialEq, Eq, Structural)]
pub enum Action {
    /// Collect a snapshot and show it.
    CollectAndRender,
    /// Wait a bounded time for a key.
    PollInput,
    /// Pause for this many seconds.
    Sleep(u64),
    /// Stop.
    Exit,
}

/// The loop's settings and its current phase.
#[derive(Clone, Copy, Debug, PartialEq, Eq, Structural)]
pub struct Driver {
    /// Refresh until the quit key arrives, rather than show one snapshot.
    pub looping: bool,
    /// Pause between ticks, in seconds.
    pub interval_secs: u64,
    /// The key that ends a refreshing loop.
    pub quit_key: char,
    pub phase: Phase,
}

/// The driver in phase `p`, with the same settings.
pub open spec fn in_phase(d: Driver, p: Phase) -> Driver {
    Driver { phase: p, ..d }
}

/// The next driver and action after event `e`. A single-shot driver stops after
/// its one snapshot; a refreshing one polls, then stops on the quit key or else
/// pauses and collects again. An event that the phase does not wait for repeats
/// the phase's action; a finished driver only ever says `Exit`.
pub open spec fn next(d: Driver, e: Event) -> (Driver, Action) {
    match d.phase {
        Phase::Finished => (d, Action::Exit),
        Phase::Collecting => match e {
            Event::Rendered => if d.looping {
                (in_phase(d, Phase::Polling), Action::PollInput)
            } else {
                (in_phase(d, Phase::Finished), Action::Exit)
            },
            _ => (d, Action::CollectAndRender),
        },
        Phase::Polling => match e {
            Event::KeyPressed(k) => if k == d.quit_key {
                (in_phase(d, Phase::Finished), Action::Exit)
            } else {
                (in_phase(d, Phase::Sleeping), Action::Sleep(d.interval_secs))
            },
            Event::NoKey => (in_phase(d, Phase::Sleeping), Action::Sleep(d.interval_secs)),
            _ => (d, Action::PollInput),
        },
        Phase::Sleeping => match e {
            Event::Slept => (in_phase(d, Phase::Collecting), Action::CollectAndRender),
            _ => (d, Action::Sleep(d.interval_secs)),
        },
    }
}

/// The actions that `events`, fed one after another from `d`, call for.
pub open spec fn actions(d: Driver, events: Seq<Event>) -> Seq<Action>
    decreases events.len(),
{
    if events.len() == 0 {
        Seq::empty()
    } else {
        let (d2, a) = next(d, events[0]);
        seq![a] + actions(d2, events.drop_first())
    }
}

impl Driver {
    /// A driver about to show its first snapshot, and that first action.
    pub fn new(looping: bool, interval_secs: u64, quit_key: char) -> (r: (Driver, Action))
        ensures
            r.0 == (Driver { looping, interval_secs, quit_key, phase: Phase::Collecting }),
            r.1 == Action::CollectAndRender,
    {
        (Driver { looping, interval_secs, quit_key, phase: Phase::Collecting }, Action::CollectAndRender)
    }

    /// The next driver and action after `event`.
    pub fn step(self, event: Event) -> (r: (Driver, Action))
        ensures
            r == next(self, event),
    {
        match self.phase {
            Phase::Finished => (self, Action::Exit),
            Phase::Collecting => match event {
                Event::Rendered => if self.looping {
                    (Driver { phase: Phase::Polling, ..self }, Action::PollInput)
                } else {
                    (Driver { phase: Phase::Finished, ..self }, Action::Exit)
                },
                _ => (self, Action::CollectAndRender),
            },
            Phase::Polling => match event {
                Event::KeyPressed(k) => if k == self.quit_key {
                    (Driver { phase: Phase::Finished, ..self }, Action::Exit)
                } else {
                    (Driver { phase: Phase::Sleeping, ..self }, Action::Sleep(self.interval_secs))
                },
                Event::NoKey => (Driver { phase: Phase::Sleeping, ..self }, Action::Sleep(self.interval_secs)),
                _ => (self, Action::PollInput),
            },
            Phase::Sleeping => match event {
                Event::Slept => (Driver { phase: Phase::Collecting, ..self }, Action::CollectAndRender),
                _ => (self, Action::Sleep(self.interval_secs)),
            },
        }
    }
}

/// Once finished, a driver asks for nothing but `Exit`, whatever it is told.
pub proof fn lemma_finished_stays_finished(d: Driver, events: Seq<Event>)
    requires
        d.phase == Phase::Finished,
    ensures
        actions(d, events).len() == events.len(),
        forall|i: int| 0 <= i < events.len() ==> #[trigger] actions(d, events)[i] == Action::Exit,
    decreases events.len(),
{
    if events.len() > 0 {
        lemma_finished_stays_finished(d, events.drop_first());
        assert forall|i: int| 0 <= i < events.len() implies #[trigger] actions(d, events)[i] == Action::Exit by {
            if i > 0 {
                assert(actions(d, events)[i] == actions(d, events.drop_first())[i - 1]);
            }
        }
    }
}

/// The quit key seen by the input poll of a refreshing loop ends it at once: the
/// answer is `Exit`, and no later event brings another pause or collection.
pub proof fn lemma_quit_key_ends_loop(d: Driver, later: Seq<Event>)
    requires
        d.phase == Phase::Polling,
    ensures
        next(d, Event::KeyPressed(d.quit_key)).1 == Action::Exit,
        forall|i: int| 0 <= i < later.len() ==>
            #[trigger] actions(next(d, Event::KeyPressed(d.quit_key)).0, later)[i] == Action::Exit,
{
    lemma_finished_stays_finished(next(d, Event::KeyPressed(d.quit_key)).0, later);
}

} // verus!
