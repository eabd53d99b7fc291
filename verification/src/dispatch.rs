//! Startup, error policy and fan-in.
//!
//! The dispatcher opens one tailer per requested path (any failure there is
//! fatal before a single event flows), then drains a single bus into which
//! every tailer sends its line events. Blocking on channels and printing are
//! left to the surrounding program; the policy and the bus's ordering model
//! live here.

use vstd::prelude::*;

use crate::cursor::TailTarget;
use crate::tailer::LineEvent;

verus! {

/// The failures the system distinguishes.
#[derive(Clone, Copy, PartialEq, Eq, Structural, Debug)]
pub enum TailError {
    /// A path was missing or unreadable at startup.
    OpenError,
    /// A change notification could not be registered on a path.
    WatchSetupError,
    /// An I/O failure during a drain pass.
    ReadError,
    /// The notification mechanism reported an error.
    NotificationSourceError,
    /// The consumer's receive failed because every producer is gone.
    BusClosedError,
}

/// Whether an error aborts the whole process. Startup and bus failures are
/// fatal; a read or notification-source failure stops only the tailer it
/// struck, and the remaining files keep flowing.
pub open spec fn spec_is_fatal(e: TailError) -> bool {
    match e {
        TailError::OpenError => true,
        TailError::WatchSetupError => true,
        TailError::BusClosedError => true,
        TailError::ReadError => false,
        TailError::NotificationSourceError => false,
    }
}

/// Decides whether `e` aborts the whole process or only one tailer.
pub fn is_fatal(e: &TailError) -> (fatal: bool)
    ensures
        fatal == spec_is_fatal(*e),
{
    match e {
        TailError::OpenError => true,
        TailError::WatchSetupError => true,
        TailError::BusClosedError => true,
        TailError::ReadError => false,
        TailError::NotificationSourceError => false,
    }
}

/// True when every requested path was opened and measured successfully.
pub open spec fn all_opened(opens: Seq<(String, Option<u64>)>) -> bool {
    forall|i: int| 0 <= i < opens.len() ==> (#[trigger] opens[i]).1 is Some
}

/// The length observed for one successfully opened path.
pub open spec fn opened_len(outcome: Option<u64>) -> u64 {
    match outcome {
        Option::Some(n) => n,
        Option::None => 0,
    }
}

/// Builds the tailing targets for the requested paths from the outcome of
/// opening each one (its length, or nothing where the open failed). A single
/// failed open is fatal for the whole run: no target is returned and no
/// event can ever be emitted, for the failed path or any other.
pub fn plan_targets(opens: &Vec<(String, Option<u64>)>) -> (planned: Result<
    Vec<TailTarget>,
    TailError,
>)
    ensures
        planned is Ok <==> all_opened(opens@),
        planned matches Ok(targets) ==> {
            &&& targets@.len() == opens@.len()
            &&& forall|i: int| 0 <= i < targets@.len() ==> {
                &&& (#[trigger] targets@[i]).wf()
                &&& targets@[i].path == opens@[i].0
                &&& targets@[i].start == opened_len(opens@[i].1)
                &&& targets@[i].cursor == targets@[i].start
                &&& targets@[i].emitted@ == Seq::<Seq<u8>>::empty()
            }
        },
        planned matches Err(e) ==> e == TailError::OpenError && spec_is_fatal(e),
{
    let mut targets: Vec<TailTarget> = Vec::new();
    let mut i: usize = 0;
    while i < opens.len()
        invariant
            i <= opens@.len(),
            targets@.len() == i,
            forall|k: int| 0 <= k < i ==> (#[trigger] opens@[k]).1 is Some,
            forall|k: int| 0 <= k < i ==> {
                &&& (#[trigger] targets@[k]).wf()
                &&& targets@[k].path == opens@[k].0
                &&& targets@[k].start == opened_len(opens@[k].1)
                &&& targets@[k].cursor == targets@[k].start
                &&& targets@[k].emitted@ == Seq::<Seq<u8>>::empty()
            },
        decreases opens@.len() - i,
    {
        let (path, outcome) = &opens[i];
        match outcome {
            Option::Some(len) => {
                targets.push(TailTarget::new(path.clone(), *len));
            },
            Option::None => {
                return Result::Err(TailError::OpenError);
            },
        }
        i = i + 1;
    }
    Result::Ok(targets)
}

/// The single consumer's view of an event sequence, restricted to one file.
pub open spec fn from_path(events: Seq<LineEvent>, path: Seq<char>) -> Seq<LineEvent> {
    events.filter(|e: LineEvent| e.path@ == path)
}

/// The fan-in bus: every tailer sends into it, one consumer drains it.
/// Events wait in arrival order; nothing is dropped and nothing is
/// reordered between a send and the matching receive.
pub struct EventBus {
    /// Events sent and not yet received, oldest first.
    pub pending: Vec<LineEvent>,
    /// Events already handed to the consumer, in delivery order.
    pub delivered: Ghost<Seq<LineEvent>>,
}

impl EventBus {
    /// Every event ever sent, in arrival order: the delivered prefix
    /// followed by what still waits.
    pub open spec fn sent(self) -> Seq<LineEvent> {
        self.delivered@ + self.pending@
    }

    /// An empty bus: nothing sent, nothing delivered.
    pub fn new() -> (bus: EventBus)
        ensures
            bus.pending@ == Seq::<LineEvent>::empty(),
            bus.delivered@ == Seq::<LineEvent>::empty(),
    {
        EventBus { pending: Vec::new(), delivered: Ghost(Seq::empty()) }
    }

    /// Enqueues one event behind everything already waiting.
    pub fn send(&mut self, event: LineEvent)
        ensures
            final(self).pending@ == old(self).pending@.push(event),
            final(self).delivered@ == old(self).delivered@,
    {
        self.pending.push(event);
    }

    /// Hands the consumer the oldest waiting event, or nothing when the bus
    /// is empty. What was ever sent is never changed by receiving.
    pub fn recv(&mut self) -> (received: Option<LineEvent>)
        ensures
            final(self).sent() == old(self).sent(),
            old(self).pending@.len() == 0 ==> {
                &&& received is None
                &&& *final(self) == *old(self)
            },
            old(self).pending@.len() > 0 ==> {
                &&& received matches Some(e) && e == old(self).pending@[0]
                &&& final(self).pending@ == old(self).pending@.drop_first()
                &&& final(self).delivered@ == old(self).delivered@.push(old(self).pending@[0])
            },
    {
        if self.pending.len() == 0 {
            Option::None
        } else {
            let event = self.pending.remove(0);
            proof {
                self.delivered@ = old(self).delivered@.push(event);
                assert(self.delivered@ + self.pending@
                    =~= old(self).delivered@ + old(self).pending@);
            }
            Option::Some(event)
        }
    }

    /// Per-file order is preserved through the bus: at any point, the events
    /// of one path that the consumer has observed are exactly the first
    /// events of that path ever sent, in sending order; the rest still wait,
    /// also in order. Across different paths no order is promised.
    pub proof fn lemma_per_path_order(self, path: Seq<char>)
        ensures
            from_path(self.sent(), path)
                == from_path(self.delivered@, path) + from_path(self.pending@, path),
    {
        Seq::filter_distributes_over_add(
            self.delivered@,
            self.pending@,
            |e: LineEvent| e.path@ == path,
        );
    }
}

} // verus!
