//! The loop that feeds chain notifications to the peer network.
//!
//! The embedding program waits on three sources at once (the best-block
//! stream, the finality stream and the network worker itself) and reports
//! what happened as a [`LoopEvent`]. [`LoopState::step`] answers with the next
//! state and, at most, one call to make on the network handle.

use vstd::prelude::*;
use crate::primitives::{BlockHash, BlockNumber, Header};

verus! {

/// Where the loop stands.
#[derive(Clone, Copy, Debug, PartialEq, Eq, Structural)]
pub enum LoopState {
    /// Notifications are passed on to the network.
    Running,
    /// The process is shutting down: the network worker is still driven so
    /// that it can work off its queue, but no notification is passed on.
    Draining,
    /// A notification stream has ended. Nothing is done any more.
    Stopped,
}

/// What the embedding program observed while waiting.
#[derive(Clone, Copy, Debug, PartialEq, Eq)]
pub enum LoopEvent {
    /// The best-block stream yielded a header.
    BestBlock(Header),
    /// The finality stream yielded a header.
    Finalized(Header),
    /// The network worker made one step of its own.
    NetworkProgress,
    /// The best-block stream is exhausted.
    BestStreamEnded,
    /// The finality stream is exhausted.
    FinalityStreamEnded,
}

/// A call on the network handle.
#[derive(Clone, Copy, Debug, PartialEq, Eq)]
pub enum NetworkCall {
    /// Tell the network which block is now the best one.
    NewBestBlock { hash: BlockHash, number: BlockNumber },
    /// Tell the network that a block is final.
    BlockFinalized { hash: BlockHash, header: Header },
}

impl LoopEvent {
    /// Whether the event says that a notification stream is exhausted.
    pub open spec fn ends_a_stream(self) -> bool {
        self is BestStreamEnded || self is FinalityStreamEnded
    }

    /// The call that passes a notification on; none for the other events.
    pub open spec fn notification(self) -> Option<NetworkCall> {
        match self {
            LoopEvent::BestBlock(header) => Some(
                NetworkCall::NewBestBlock { hash: header.hash, number: header.number },
            ),
            LoopEvent::Finalized(header) => Some(
                NetworkCall::BlockFinalized { hash: header.hash, header },
            ),
            _ => None,
        }
    }
}

impl LoopState {
    /// The state after `event`.
    pub open spec fn next(self, event: LoopEvent) -> LoopState {
        if self is Stopped || event.ends_a_stream() {
            LoopState::Stopped
        } else {
            self
        }
    }

    /// The call on the network handle that `event` leads to, if any.
    pub open spec fn call(self, event: LoopEvent) -> Option<NetworkCall> {
        if self is Running {
            event.notification()
        } else {
            None
        }
    }

    /// The state after a series of events.
    pub open spec fn next_all(self, events: Seq<LoopEvent>) -> LoopState
        decreases events.len(),
    {
        if events.len() == 0 {
            self
        } else {
            self.next_all(events.drop_last()).next(events.last())
        }
    }

    /// The calls on the network handle that a series of events leads to, in
    /// the order they are made.
    pub open spec fn calls(self, events: Seq<LoopEvent>) -> Seq<NetworkCall>
        decreases events.len(),
    {
        if events.len() == 0 {
            Seq::empty()
        } else {
            let before = self.calls(events.drop_last());
            match self.next_all(events.drop_last()).call(events.last()) {
                Some(call) => before.push(call),
                None => before,
            }
        }
    }

    /// The state in which the loop begins once the start signal has arrived.
    pub fn start() -> (state: LoopState)
        ensures
            state == LoopState::Running,
    {
        LoopState::Running
    }

    /// Whether the embedding program should go on waiting for events.
    pub fn is_active(&self) -> (active: bool)
        ensures
            active == !(*self is Stopped),
    {
        match self {
            LoopState::Stopped => false,
            _ => true,
        }
    }

    /// Stops passing notifications on while the process shuts down. A loop
    /// that has stopped stays stopped.
    pub fn begin_shutdown(self) -> (state: LoopState)
        ensures
            state == (if self is Stopped {
                LoopState::Stopped
            } else {
                LoopState::Draining
            }),
    {
        match self {
            LoopState::Stopped => LoopState::Stopped,
            _ => LoopState::Draining,
        }
    }

    /// Handles one event.
    ///
    /// While running, a best-block header becomes a `NewBestBlock` call with
    /// its hash and number, a finalized header a `BlockFinalized` call, and a
    /// step of the network worker needs nothing. The end of either stream
    /// stops the loop without a call; a stopped loop answers every event with
    /// no call.
    pub fn step(self, event: LoopEvent) -> (result: (LoopState, Option<NetworkCall>))
        ensures
            result.0 == self.next(event),
            result.1 == self.call(event),
    {
        match self {
            LoopState::Stopped => (LoopState::Stopped, None),
            LoopState::Draining => match event {
                LoopEvent::BestStreamEnded | LoopEvent::FinalityStreamEnded => (
                    LoopState::Stopped,
                    None,
                ),
                _ => (LoopState::Draining, None),
            },
            LoopState::Running => match event {
                LoopEvent::BestBlock(header) => (
                    LoopState::Running,
                    Some(NetworkCall::NewBestBlock { hash: header.hash, number: header.number }),
                ),
                LoopEvent::Finalized(header) => (
                    LoopState::Running,
                    Some(NetworkCall::BlockFinalized { hash: header.hash, header }),
                ),
                LoopEvent::NetworkProgress => (LoopState::Running, None),
                LoopEvent::BestStreamEnded | LoopEvent::FinalityStreamEnded => (
                    LoopState::Stopped,
                    None,
                ),
            },
        }
    }

    /// Handles a series of events in order and collects the calls.
    pub fn replay(self, events: &Vec<LoopEvent>) -> (result: (LoopState, Vec<NetworkCall>))
        ensures
            result.0 == self.next_all(events@),
            result.1@ == self.calls(events@),
    {
        let mut state = self;
        let mut calls: Vec<NetworkCall> = Vec::new();
        let mut i: usize = 0;
        while i < events.len()
            invariant
                i <= events.len(),
                state == self.next_all(events@.take(i as int)),
                calls@ == self.calls(events@.take(i as int)),
            decreases events.len() - i,
        {
            let (next, call) = state.step(events[i]);
            proof {
                let upto = events@.take(i as int + 1);
                assert(upto.drop_last() =~= events@.take(i as int));
            }
            match call {
                Some(c) => calls.push(c),
                None => {},
            }
            state = next;
            i = i + 1;
        }
        proof {
            assert(events@.take(events.len() as int) =~= events@);
        }
        (state, calls)
    }
}

/// The notifications among `events`, as calls, in their order.
pub open spec fn notifications(events: Seq<LoopEvent>) -> Seq<NetworkCall>
    decreases events.len(),
{
    if events.len() == 0 {
        Seq::empty()
    } else {
        match events.last().notification() {
            Some(call) => notifications(events.drop_last()).push(call),
            None => notifications(events.drop_last()),
        }
    }
}

/// Whether none of the events says that a stream is exhausted.
pub open spec fn no_stream_ends(events: Seq<LoopEvent>) -> bool {
    forall|i: int| 0 <= i < events.len() ==> !events[i].ends_a_stream()
}

/// A stopped loop stays stopped and makes no call on the network handle,
/// whatever it is told. The same holds of the calls of a draining loop.
pub proof fn lemma_stopped_is_silent(state: LoopState, events: Seq<LoopEvent>)
    requires
        !(state is Running),
    ensures
        state.calls(events) == Seq::<NetworkCall>::empty(),
        !(state.next_all(events) is Running),
        state is Stopped ==> state.next_all(events) is Stopped,
    decreases events.len(),
{
    if events.len() > 0 {
        lemma_stopped_is_silent(state, events.drop_last());
    }
}

/// While both streams are alive, a running loop keeps running and passes on
/// every notification, each exactly once and in the order of arrival.
pub proof fn lemma_running_passes_on_in_order(events: Seq<LoopEvent>)
    requires
        no_stream_ends(events),
    ensures
        LoopState::Running.next_all(events) is Running,
        LoopState::Running.calls(events) == notifications(events),
    decreases events.len(),
{
    if events.len() > 0 {
        lemma_running_passes_on_in_order(events.drop_last());
    }
}

/// What happens after a series of events is what happens to the loop in the
/// state that the first part left it in, on the rest of them.
pub proof fn lemma_events_compose(state: LoopState, first: Seq<LoopEvent>, rest: Seq<LoopEvent>)
    ensures
        state.next_all(first + rest) == state.next_all(first).next_all(rest),
        state.calls(first + rest) == state.calls(first) + state.next_all(first).calls(rest),
    decreases rest.len(),
{
    if rest.len() > 0 {
        let all = first + rest;
        assert(all.drop_last() =~= first + rest.drop_last());
        lemma_events_compose(state, first, rest.drop_last());
        let mid = state.next_all(first);
        match mid.next_all(rest.drop_last()).call(rest.last()) {
            Some(call) => {
                assert((state.calls(first) + mid.calls(rest.drop_last())).push(call)
                    =~= state.calls(first) + mid.calls(rest.drop_last()).push(call));
            },
            None => {},
        }
    }
}

/// When a stream ends the loop stops: of everything it is told, only the
/// notifications that came before the end reach the network, in their order,
/// and nothing that comes later leads to a call.
pub proof fn lemma_stream_end_stops_the_loop(
    before: Seq<LoopEvent>,
    end: LoopEvent,
    later: Seq<LoopEvent>,
)
    requires
        no_stream_ends(before),
        end.ends_a_stream(),
    ensures
        LoopState::Running.next_all(before.push(end) + later) is Stopped,
        LoopState::Running.calls(before.push(end) + later) == notifications(before),
{
    let upto = before.push(end);
    lemma_running_passes_on_in_order(before);
    assert(upto.drop_last() =~= before);
    lemma_events_compose(LoopState::Running, upto, later);
    lemma_stopped_is_silent(LoopState::Stopped, later);
}

} // verus!
