//! The per-file tailer state machine.
//!
//! A tailer waits for change notifications on its file and reacts: a write
//! notification triggers a drain pass, any other notification is deliberately
//! ignored, and a notification-source error terminates this tailer alone.
//! The surrounding program runs the blocking loop; the decisions and the
//! drain itself live here.

use vstd::prelude::*;

use crate::cursor::TailTarget;
use crate::lines::{drained_lines, drained_rest};

verus! {

/// What a change notification says, reduced to what the tailer reacts to.
#[derive(Clone, Copy, PartialEq, Eq, Structural, Debug)]
pub enum Signal {
    /// A write occurred on the watched path: the file may have grown.
    Write,
    /// Any other notification (rename, delete, metadata change, unknown):
    /// deliberately not handled.
    Other,
    /// The notification source itself reported an error.
    SourceError,
}

/// What the tailer's loop must do next.
#[derive(Clone, Copy, PartialEq, Eq, Structural, Debug)]
pub enum Action {
    /// Read forward from the cursor and emit the newly completed lines.
    Drain,
    /// Do nothing and keep waiting.
    Ignore,
    /// Stop this tailer's loop; other tailers are unaffected.
    Stop,
}

/// Where a tailer stands in its life cycle.
#[derive(Clone, Copy, PartialEq, Eq, Structural, Debug)]
pub enum Phase {
    /// Awaiting the next notification.
    Idle,
    /// Stopped for good after a read or notification-source failure;
    /// no further transitions.
    Terminated,
}

/// One line delivered to the consumer: the source path and the line's bytes,
/// terminator stripped.
pub struct LineEvent {
    /// Path of the file the line was read from.
    pub path: String,
    /// The line's content, without its terminator.
    pub line: Vec<u8>,
}

/// The action a tailer in phase `phase` takes on signal `sig`: drain on a
/// write, ignore anything else, stop when the source fails; a terminated
/// tailer reacts to nothing.
pub open spec fn action_for(phase: Phase, sig: Signal) -> Action {
    match phase {
        Phase::Terminated => Action::Ignore,
        Phase::Idle => match sig {
            Signal::Write => Action::Drain,
            Signal::Other => Action::Ignore,
            Signal::SourceError => Action::Stop,
        },
    }
}

/// One file's tailer: its cursor state and its place in the life cycle.
pub struct Tailer {
    /// The cursor state of the tailed file.
    pub target: TailTarget,
    /// Whether this tailer still reacts to notifications.
    pub phase: Phase,
}

impl Tailer {
    /// A tailer is well-formed exactly when its cursor state is.
    pub open spec fn wf(self) -> bool {
        self.target.wf()
    }

    /// Starts a tailer on a freshly opened target, awaiting notifications.
    pub fn new(target: TailTarget) -> (tailer: Tailer)
        requires
            target.wf(),
        ensures
            tailer.wf(),
            tailer.phase == Phase::Idle,
            tailer.target == target,
    {
        Tailer { target, phase: Phase::Idle }
    }

    /// Decides what to do on the next notification, without changing state.
    pub fn decide(&self, sig: &Signal) -> (action: Action)
        ensures
            action == action_for(self.phase, *sig),
    {
        match self.phase {
            Phase::Terminated => Action::Ignore,
            Phase::Idle => match sig {
                Signal::Write => Action::Drain,
                Signal::Other => Action::Ignore,
                Signal::SourceError => Action::Stop,
            },
        }
    }

    /// Drains the bytes newly appended past the cursor and tags each
    /// completed line with this tailer's path, in the order the lines stand
    /// in the file. The tailer stays idle and its cursor advances past
    /// exactly the bytes handed in.
    pub fn drain(&mut self, bytes: &Vec<u8>) -> (events: Vec<LineEvent>)
        requires
            old(self).wf(),
            old(self).phase == Phase::Idle,
            old(self).target.cursor + bytes@.len() <= u64::MAX,
        ensures
            final(self).wf(),
            final(self).phase == Phase::Idle,
            final(self).target.path == old(self).target.path,
            final(self).target.start == old(self).target.start,
            final(self).target.cursor == old(self).target.cursor + bytes@.len(),
            final(self).target.consumed@ == old(self).target.consumed@ + bytes@,
            final(self).target.partial@ == drained_rest(old(self).target.partial@, bytes@),
            events@.len() == drained_lines(old(self).target.partial@, bytes@).len(),
            forall|i: int| 0 <= i < events@.len() ==> {
                &&& (#[trigger] events@[i]).path == old(self).target.path
                &&& events@[i].line@ == drained_lines(old(self).target.partial@, bytes@)[i]
            },
            final(self).target.emitted@
                == old(self).target.emitted@ + drained_lines(old(self).target.partial@, bytes@),
    {
        let ghost new_lines_view = drained_lines(old(self).target.partial@, bytes@);
        let mut new_lines = self.target.drain(bytes);
        let mut events: Vec<LineEvent> = Vec::new();
        let ghost total = new_lines@.len();
        proof {
            assert(crate::lines::views_of(new_lines@).len() == new_lines@.len());
        }
        while new_lines.len() > 0
            invariant
                events@.len() + new_lines@.len() == total,
                total == new_lines_view.len(),
                forall|i: int| 0 <= i < events@.len() ==> {
                    &&& (#[trigger] events@[i]).path == self.target.path
                    &&& events@[i].line@ == new_lines_view[i]
                },
                forall|j: int| 0 <= j < new_lines@.len()
                    ==> (#[trigger] new_lines@[j])@ == new_lines_view[events@.len() + j],
            decreases new_lines@.len(),
        {
            let line = new_lines.remove(0);
            let event = LineEvent { path: self.target.path.clone(), line };
            events.push(event);
        }
        events
    }

    /// Feeds the outcome of one read at the cursor into the tailer: a
    /// successful read is drained and the completed lines are returned,
    /// tagged and in file order; a failed read is fatal for this target
    /// alone — the tailer terminates, nothing is emitted, and nothing
    /// already consumed or emitted changes.
    pub fn handle_read(&mut self, outcome: Option<Vec<u8>>) -> (events: Option<Vec<LineEvent>>)
        requires
            old(self).wf(),
            old(self).phase == Phase::Idle,
            old(self).outcome_fits(outcome),
        ensures
            final(self).wf(),
            final(self).target.path == old(self).target.path,
            final(self).target.start == old(self).target.start,
            outcome is None ==> {
                &&& final(self).phase == Phase::Terminated
                &&& final(self).target == old(self).target
                &&& events is None
            },
            outcome matches Some(bytes) ==> {
                &&& final(self).phase == Phase::Idle
                &&& final(self).target.cursor == old(self).target.cursor + bytes@.len()
                &&& final(self).target.consumed@ == old(self).target.consumed@ + bytes@
                &&& final(self).target.partial@
                    == drained_rest(old(self).target.partial@, bytes@)
                &&& final(self).target.emitted@
                    == old(self).target.emitted@
                        + drained_lines(old(self).target.partial@, bytes@)
                &&& events matches Some(evs) && {
                    &&& evs@.len() == drained_lines(old(self).target.partial@, bytes@).len()
                    &&& forall|i: int| 0 <= i < evs@.len() ==> {
                        &&& (#[trigger] evs@[i]).path == old(self).target.path
                        &&& evs@[i].line@
                            == drained_lines(old(self).target.partial@, bytes@)[i]
                    }
                }
            },
    {
        match outcome {
            Option::Some(bytes) => {
                let events = self.drain(&bytes);
                Option::Some(events)
            },
            Option::None => {
                self.stop();
                Option::None
            },
        }
    }

    /// Whether the bytes a read handed back can still be counted: the cursor
    /// is a byte offset and must not overflow. Only a file of nearly `2^64`
    /// bytes could violate this.
    pub open spec fn outcome_fits(self, outcome: Option<Vec<u8>>) -> bool {
        outcome matches Some(bytes) ==> self.target.cursor + bytes@.len() <= u64::MAX
    }

    /// Records a failure of this tailer alone (a read error or a failed
    /// notification source): it stops reacting, and nothing already consumed
    /// or emitted changes.
    pub fn stop(&mut self)
        ensures
            final(self).phase == Phase::Terminated,
            final(self).target == old(self).target,
    {
        self.phase = Phase::Terminated;
    }
}

} // verus!
