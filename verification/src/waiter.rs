//! The completion waiter: batches of query handles wait in a queue, and a snapshot is emitted
//! for the batch at the front once none of its queries is still running.
//!
//! The queue is first in, first out.  Only the front batch is ever polled, so a later batch
//! whose queries finish sooner cannot overtake an earlier one.

use std::collections::VecDeque;
use vstd::prelude::*;

verus! {

/// Milliseconds to sleep between two polls of a batch that has not settled.
pub const POLL_INTERVAL_MS: u64 = 50;

/// State of one query in flight.
#[derive(Clone, Copy, Debug, PartialEq, Eq, Structural)]
pub enum OperationState {
    Running,
    Done,
    Cancelled,
    Error,
}

/// The handles of the queries that one notification, or startup, gave rise to.
#[derive(Debug)]
pub struct Batch<H> {
    pub sink_handles: Vec<H>,
    pub source_handles: Vec<H>,
}

/// What the waiter does next.
#[derive(Debug)]
pub enum WaitAction<H> {
    /// No batch is waiting.
    Idle,
    /// The front batch has not settled: sleep this many milliseconds, then poll it again.
    Sleep(u64),
    /// The front batch has settled and left the queue: emit one snapshot for it.
    Emit(Batch<H>),
}

/// No query is running any more.  A query that failed or was cancelled counts as finished.
pub open spec fn none_running(states: Seq<OperationState>) -> bool {
    forall|i: int| 0 <= i < states.len() ==> states[i] != OperationState::Running
}

/// The number of handles in a batch.
pub open spec fn handle_count<H>(batch: Batch<H>) -> nat {
    batch.sink_handles@.len() + batch.source_handles@.len()
}

/// A poll settles a batch if it reports a state for every handle of the batch, and none of
/// them is running.
pub open spec fn settles<H>(batch: Batch<H>, states: Seq<OperationState>) -> bool {
    states.len() == handle_count(batch) && none_running(states)
}

/// Whether no polled query is running any more.
pub fn all_settled(states: &Vec<OperationState>) -> (settled: bool)
    ensures
        settled == none_running(states@),
{
    let mut i: usize = 0;
    while i < states.len()
        invariant
            i <= states.len(),
            forall|j: int| 0 <= j < i ==> states@[j] != OperationState::Running,
        decreases states.len() - i,
    {
        if states[i] == OperationState::Running {
            return false;
        }
        i += 1;
    }
    true
}

impl<H> Batch<H> {
    /// A batch of the given handles.
    pub fn new(sink_handles: Vec<H>, source_handles: Vec<H>) -> (batch: Batch<H>)
        ensures
            batch.sink_handles == sink_handles,
            batch.source_handles == source_handles,
    {
        Batch { sink_handles, source_handles }
    }

    /// Whether `states`, polled from the handles of this batch (those of the sink queries
    /// first), settles the batch.
    pub fn settled_by(&self, states: &Vec<OperationState>) -> (settled: bool)
        ensures
            settled == settles(*self, states@),
    {
        let sinks = self.sink_handles.len();
        let sources = self.source_handles.len();
        states.len() >= sinks && states.len() - sinks == sources && all_settled(states)
    }
}

/// What happens at the waiter: a batch arrives, or the front batch is polled.
pub ghost enum WaiterEvent<H> {
    Enqueue(Batch<H>),
    Poll(Seq<OperationState>),
}

/// Where the waiter stands: the batches that wait, oldest first, and the batches for which a
/// snapshot was emitted, in the order of emission.
pub ghost struct WaiterRun<H> {
    pub pending: Seq<Batch<H>>,
    pub emitted: Seq<Batch<H>>,
}

/// The queue after a batch arrived: the batch stands at the back.
pub open spec fn after_enqueue<H>(pending: Seq<Batch<H>>, batch: Batch<H>) -> Seq<Batch<H>> {
    pending.push(batch)
}

/// Whether a poll emits: there is a front batch and the poll settles it.
pub open spec fn emits<H>(pending: Seq<Batch<H>>, states: Seq<OperationState>) -> bool {
    pending.len() > 0 && settles(pending[0], states)
}

/// The queue after a poll: the front batch leaves if the poll settles it.
pub open spec fn after_poll<H>(pending: Seq<Batch<H>>, states: Seq<OperationState>) -> Seq<
    Batch<H>,
> {
    if emits(pending, states) {
        pending.skip(1)
    } else {
        pending
    }
}

impl<H> WaiterRun<H> {
    /// The waiter before anything happened.
    pub open spec fn start() -> Self {
        WaiterRun { pending: Seq::empty(), emitted: Seq::empty() }
    }

    /// The waiter after one more event.
    pub open spec fn step(self, event: WaiterEvent<H>) -> Self {
        match event {
            WaiterEvent::Enqueue(batch) => WaiterRun {
                pending: after_enqueue(self.pending, batch),
                emitted: self.emitted,
            },
            WaiterEvent::Poll(states) => if emits(self.pending, states) {
                WaiterRun {
                    pending: after_poll(self.pending, states),
                    emitted: self.emitted.push(self.pending[0]),
                }
            } else {
                self
            },
        }
    }

    /// The waiter after a sequence of events, from the start.
    pub open spec fn replay(events: Seq<WaiterEvent<H>>) -> Self
        decreases events.len(),
    {
        if events.len() == 0 {
            Self::start()
        } else {
            Self::replay(events.drop_last()).step(events.last())
        }
    }
}

/// The batches that arrive in a sequence of events, in the order of arrival.
pub open spec fn arrivals<H>(events: Seq<WaiterEvent<H>>) -> Seq<Batch<H>>
    decreases events.len(),
{
    if events.len() == 0 {
        Seq::empty()
    } else {
        match events.last() {
            WaiterEvent::Enqueue(batch) => arrivals(events.drop_last()).push(batch),
            WaiterEvent::Poll(_) => arrivals(events.drop_last()),
        }
    }
}

/// Snapshots are emitted in the order in which their batches arrived.  Whatever the polls
/// report and whenever they come, the batches emitted so far followed by the batches that
/// still wait are the batches that arrived, in the order of arrival: the k-th emission is
/// for the k-th arrival.
pub proof fn lemma_emitted_in_arrival_order<H>(events: Seq<WaiterEvent<H>>)
    ensures
        WaiterRun::replay(events).emitted + WaiterRun::replay(events).pending == arrivals(events),
        forall|k: int|
            0 <= k < WaiterRun::replay(events).emitted.len() ==> WaiterRun::replay(
                events,
            ).emitted[k] == arrivals(events)[k],
    decreases events.len(),
{
    if events.len() > 0 {
        let before = WaiterRun::replay(events.drop_last());
        let after = WaiterRun::replay(events);
        lemma_emitted_in_arrival_order(events.drop_last());
        match events.last() {
            WaiterEvent::Enqueue(batch) => {
                assert(after.emitted + after.pending =~= (before.emitted + before.pending).push(
                    batch,
                ));
            },
            WaiterEvent::Poll(states) => {
                if emits(before.pending, states) {
                    assert(after.emitted + after.pending =~= before.emitted + before.pending);
                }
            },
        }
    }
    let run = WaiterRun::replay(events);
    assert forall|k: int| 0 <= k < run.emitted.len() implies run.emitted[k] == arrivals(
        events,
    )[k] by {
        assert((run.emitted + run.pending)[k] == run.emitted[k]);
    }
}

/// A later batch does not overtake an earlier one, even if its queries finish first.  While
/// the front batch has not settled, a batch behind it stays where it is although a poll of
/// its own handles would settle it; and when a poll does emit, it is the front batch that
/// leaves, and the later batch moves up by one place.
pub proof fn lemma_later_batch_does_not_overtake<H>(
    pending: Seq<Batch<H>>,
    later: int,
    later_states: Seq<OperationState>,
    polled: Seq<OperationState>,
)
    requires
        0 < later < pending.len(),
        settles(pending[later], later_states),
    ensures
        !settles(pending[0], polled) ==> after_poll(pending, polled) == pending,
        settles(pending[0], polled) ==> after_poll(pending, polled) == pending.skip(1)
            && after_poll(pending, polled)[later - 1] == pending[later],
{
}

/// A batch whose queries never finish holds back the snapshots, not the arrivals: a poll
/// that does not settle the front batch changes nothing, and the batch that arrives next is
/// taken into the queue behind the batches that wait.
pub proof fn lemma_unsettled_front_does_not_block<H>(
    run: WaiterRun<H>,
    states: Seq<OperationState>,
    batch: Batch<H>,
)
    requires
        !emits(run.pending, states),
    ensures
        run.step(WaiterEvent::Poll(states)) == run,
        run.step(WaiterEvent::Poll(states)).step(WaiterEvent::Enqueue(batch)).pending
            == run.pending.push(batch),
        run.step(WaiterEvent::Poll(states)).step(WaiterEvent::Enqueue(batch)).emitted
            == run.emitted,
{
}

/// The queue of batches between the event-processing side, which enqueues, and the waiter,
/// which polls.
#[derive(Debug)]
pub struct BatchQueue<H> {
    pending: VecDeque<Batch<H>>,
}

impl<H> View for BatchQueue<H> {
    type V = Seq<Batch<H>>;

    closed spec fn view(&self) -> Seq<Batch<H>> {
        self.pending@
    }
}

impl<H> BatchQueue<H> {
    /// An empty queue.
    pub fn new() -> (queue: BatchQueue<H>)
        ensures
            queue@ == Seq::<Batch<H>>::empty(),
    {
        BatchQueue { pending: VecDeque::new() }
    }

    /// The number of batches that wait.
    pub fn len(&self) -> (len: usize)
        ensures
            len == self@.len(),
    {
        self.pending.len()
    }

    /// Whether no batch waits.
    pub fn is_empty(&self) -> (empty: bool)
        ensures
            empty == (self@.len() == 0),
    {
        self.pending.len() == 0
    }

    /// Puts a batch at the back of the queue.  This never waits for a query: the batches
    /// that are already in the queue, settled or not, stay as they are.
    pub fn enqueue(&mut self, batch: Batch<H>)
        ensures
            final(self)@ == after_enqueue(old(self)@, batch),
    {
        self.pending.push_back(batch);
    }

    /// The batch at the front of the queue: the one whose handles are to be polled.
    pub fn front(&self) -> (front: Option<&Batch<H>>)
        ensures
            match front {
                Some(batch) => self@.len() > 0 && *batch == self@[0],
                None => self@.len() == 0,
            },
    {
        if self.pending.len() > 0 {
            Some(&self.pending[0])
        } else {
            None
        }
    }

    /// Takes the states polled from the handles of the front batch and says what the waiter
    /// does next.
    ///
    /// With no batch waiting the waiter idles.  If the poll settles the front batch, the
    /// batch leaves the queue and is handed back for one emission.  Otherwise the queue
    /// stays as it is and the waiter sleeps for [`POLL_INTERVAL_MS`].
    pub fn poll(&mut self, states: &Vec<OperationState>) -> (action: WaitAction<H>)
        ensures
            final(self)@ == after_poll(old(self)@, states@),
            match action {
                WaitAction::Idle => old(self)@.len() == 0,
                WaitAction::Sleep(millis) => old(self)@.len() > 0 && !emits(old(self)@, states@)
                    && millis == POLL_INTERVAL_MS,
                WaitAction::Emit(batch) => emits(old(self)@, states@) && batch == old(self)@[0],
            },
    {
        if self.pending.len() == 0 {
            return WaitAction::Idle;
        }
        if !self.pending[0].settled_by(states) {
            return WaitAction::Sleep(POLL_INTERVAL_MS);
        }
        match self.pending.pop_front() {
            Some(batch) => WaitAction::Emit(batch),
            None => WaitAction::Idle,
        }
    }
}

} // verus!
