//! From push subscriptions to the streams that consumers pull from.
//!
//! A subscription delivers headers, and now and then a delivery that could
//! not be read. Such a delivery is dropped (the embedding program logs it)
//! and the stream goes on; only the end of the subscription ends the stream.

use vstd::prelude::*;
use crate::driving_loop::{
    lemma_running_passes_on_in_order, lemma_stream_end_stops_the_loop, notifications, LoopEvent,
    LoopState, NetworkCall,
};
use crate::error::ChainError;
use crate::primitives::Header;
use crate::remote::StreamKind;

verus! {

/// One delivery of a subscription: a header, or the error met in reading it.
pub type Delivery = Result<Header, ChainError>;

/// What a subscription does when it is polled.
#[derive(Debug, PartialEq, Eq)]
pub enum SubscriptionEvent {
    /// It delivered something.
    Item(Delivery),
    /// It ended: the connection is lost or the remote session is over.
    Closed,
}

/// What the stream on top of a subscription does with an event.
#[derive(Debug, PartialEq, Eq)]
pub enum StreamOutput {
    /// Hand the header to the consumer.
    Yield(Header),
    /// Hand nothing out: log the error of the delivery and poll again.
    Dropped(ChainError),
    /// The stream is exhausted.
    End,
}

/// The header that a delivery hands to the consumer, if any.
pub open spec fn kept(delivery: Delivery) -> Option<Header> {
    match delivery {
        Ok(header) => Some(header),
        Err(_) => None,
    }
}

/// The headers that reach the consumer out of a series of deliveries.
pub open spec fn delivered(deliveries: Seq<Delivery>) -> Seq<Header>
    decreases deliveries.len(),
{
    if deliveries.len() == 0 {
        Seq::empty()
    } else {
        match kept(deliveries.last()) {
            Some(header) => delivered(deliveries.drop_last()).push(header),
            None => delivered(deliveries.drop_last()),
        }
    }
}

/// What the stream does with an event of its subscription.
pub open spec fn output_of(event: SubscriptionEvent) -> StreamOutput {
    match event {
        SubscriptionEvent::Item(Ok(header)) => StreamOutput::Yield(header),
        SubscriptionEvent::Item(Err(error)) => StreamOutput::Dropped(error),
        SubscriptionEvent::Closed => StreamOutput::End,
    }
}

/// What the driving loop is told when a stream of the given kind does
/// `output`. The loop watches the best-block and the finality stream only.
pub open spec fn event_for(kind: StreamKind, output: StreamOutput) -> Option<LoopEvent> {
    match (kind, output) {
        (StreamKind::Best, StreamOutput::Yield(header)) => Some(LoopEvent::BestBlock(header)),
        (StreamKind::Best, StreamOutput::End) => Some(LoopEvent::BestStreamEnded),
        (StreamKind::Finality, StreamOutput::Yield(header)) => Some(LoopEvent::Finalized(header)),
        (StreamKind::Finality, StreamOutput::End) => Some(LoopEvent::FinalityStreamEnded),
        _ => None,
    }
}

/// Decides on one delivery: a header is passed on unchanged, a delivery in
/// error is dropped.
pub fn keep(delivery: Delivery) -> (header: Option<Header>)
    ensures
        header == kept(delivery),
{
    match delivery {
        Ok(header) => Some(header),
        Err(_) => None,
    }
}

/// Decides what the stream does with an event of its subscription: a header
/// is yielded, a delivery in error is dropped and its error handed back for
/// the log, and the end of the subscription ends the stream.
pub fn on_subscription_event(event: SubscriptionEvent) -> (output: StreamOutput)
    ensures
        output == output_of(event),
{
    match event {
        SubscriptionEvent::Item(Ok(header)) => StreamOutput::Yield(header),
        SubscriptionEvent::Item(Err(error)) => StreamOutput::Dropped(error),
        SubscriptionEvent::Closed => StreamOutput::End,
    }
}

/// Decides what the driving loop is told about a stream: of each header
/// and of the end, on the two streams that it watches, and of nothing else.
pub fn loop_event(kind: StreamKind, output: &StreamOutput) -> (event: Option<LoopEvent>)
    ensures
        event == event_for(kind, *output),
{
    match kind {
        StreamKind::Best => match output {
            StreamOutput::Yield(header) => Some(LoopEvent::BestBlock(*header)),
            StreamOutput::End => Some(LoopEvent::BestStreamEnded),
            StreamOutput::Dropped(_) => None,
        },
        StreamKind::Finality => match output {
            StreamOutput::Yield(header) => Some(LoopEvent::Finalized(*header)),
            StreamOutput::End => Some(LoopEvent::FinalityStreamEnded),
            StreamOutput::Dropped(_) => None,
        },
        StreamKind::Import => None,
    }
}

/// The headers that a stream yields for a series of deliveries: those that
/// could be read, in the order they came.
pub fn filter_deliveries(deliveries: &Vec<Delivery>) -> (headers: Vec<Header>)
    ensures
        headers@ == delivered(deliveries@),
{
    let mut headers: Vec<Header> = Vec::new();
    let mut i: usize = 0;
    while i < deliveries.len()
        invariant
            i <= deliveries.len(),
            headers@ == delivered(deliveries@.take(i as int)),
        decreases deliveries.len() - i,
    {
        proof {
            let upto = deliveries@.take(i as int + 1);
            assert(upto.drop_last() =~= deliveries@.take(i as int));
        }
        match &deliveries[i] {
            Ok(header) => headers.push(*header),
            Err(_) => {},
        }
        i = i + 1;
    }
    proof {
        assert(deliveries@.take(deliveries.len() as int) =~= deliveries@);
    }
    headers
}

/// Whether every delivery but the one at `skip` holds a header; `skip` may
/// lie outside the series.
pub open spec fn readable_except(deliveries: Seq<Delivery>, skip: int) -> bool {
    forall|i: int| 0 <= i < deliveries.len() && i != skip ==> deliveries[i] is Ok
}

/// Deliveries that can all be read are all yielded, one for one.
pub proof fn lemma_readable_are_all_delivered(deliveries: Seq<Delivery>)
    requires
        readable_except(deliveries, -1),
    ensures
        delivered(deliveries).len() == deliveries.len(),
        forall|i: int|
            0 <= i < deliveries.len() ==> #[trigger] delivered(deliveries)[i]
                == deliveries[i]->Ok_0,
    decreases deliveries.len(),
{
    if deliveries.len() > 0 {
        lemma_readable_are_all_delivered(deliveries.drop_last());
    }
}

/// With one delivery in error among `n`, the stream yields the other `n - 1`
/// headers in their order: those before the bad one at their own place,
/// those after it one place earlier.
pub proof fn lemma_one_malformed_is_left_out(deliveries: Seq<Delivery>, bad: int)
    requires
        0 <= bad < deliveries.len(),
        deliveries[bad] is Err,
        readable_except(deliveries, bad),
    ensures
        delivered(deliveries).len() == deliveries.len() - 1,
        forall|i: int| 0 <= i < bad ==> #[trigger] delivered(deliveries)[i] == deliveries[i]->Ok_0,
        forall|i: int|
            bad <= i < deliveries.len() - 1 ==> #[trigger] delivered(deliveries)[i] == deliveries[i
                + 1]->Ok_0,
    decreases deliveries.len(),
{
    let before = deliveries.drop_last();
    if bad == deliveries.len() - 1 {
        lemma_readable_are_all_delivered(before);
    } else {
        lemma_one_malformed_is_left_out(before, bad);
    }
}

/// Nothing is made up and nothing is reordered: every header that the
/// stream yields was delivered, and headers keep the order of their
/// deliveries.
pub proof fn lemma_delivered_keeps_order(deliveries: Seq<Delivery>) -> (origin: Seq<int>)
    ensures
        origin.len() == delivered(deliveries).len(),
        forall|j: int|
            0 <= j < origin.len() ==> 0 <= #[trigger] origin[j] < deliveries.len()
                && deliveries[origin[j]] == Ok::<Header, ChainError>(delivered(deliveries)[j]),
        forall|j: int, k: int| 0 <= j < k < origin.len() ==> origin[j] < origin[k],
        delivered(deliveries).len() <= deliveries.len(),
    decreases deliveries.len(),
{
    if deliveries.len() == 0 {
        Seq::empty()
    } else {
        let origin = lemma_delivered_keeps_order(deliveries.drop_last());
        if deliveries.last() is Ok {
            origin.push(deliveries.len() - 1)
        } else {
            origin
        }
    }
}

/// What the driving loop is told, one event for each header that a stream
/// of the given kind yields for a series of deliveries.
pub open spec fn fed(kind: StreamKind, deliveries: Seq<Delivery>) -> Seq<LoopEvent>
    decreases deliveries.len(),
{
    if deliveries.len() == 0 {
        Seq::empty()
    } else {
        match event_for(kind, output_of(SubscriptionEvent::Item(deliveries.last()))) {
            Some(event) => fed(kind, deliveries.drop_last()).push(event),
            None => fed(kind, deliveries.drop_last()),
        }
    }
}

/// The calls on the network handle that announce a series of headers of a
/// stream of the given kind.
pub open spec fn announced(kind: StreamKind, headers: Seq<Header>) -> Seq<NetworkCall>
    decreases headers.len(),
{
    if headers.len() == 0 {
        Seq::empty()
    } else {
        match event_for(kind, StreamOutput::Yield(headers.last())) {
            Some(event) => announced(kind, headers.drop_last()).push(event.notification()->Some_0),
            None => announced(kind, headers.drop_last()),
        }
    }
}

/// From the subscription to the network: of the deliveries of a best-block
/// or finality subscription, the network is told of exactly those that
/// could be read, in the order they came. Once the subscription has ended
/// the loop is stopped, and whatever it is told later reaches the network
/// no more.
pub proof fn lemma_network_learns_of_readable_deliveries(
    kind: StreamKind,
    deliveries: Seq<Delivery>,
    later: Seq<LoopEvent>,
)
    requires
        kind is Best || kind is Finality,
    ensures
        LoopState::Running.calls(fed(kind, deliveries)) == announced(kind, delivered(deliveries)),
        LoopState::Running.next_all(fed(kind, deliveries)) is Running,
        LoopState::Running.calls(
            fed(kind, deliveries).push(event_for(kind, StreamOutput::End)->Some_0) + later,
        ) == announced(kind, delivered(deliveries)),
        LoopState::Running.next_all(
            fed(kind, deliveries).push(event_for(kind, StreamOutput::End)->Some_0) + later,
        ) is Stopped,
{
    lemma_fed_holds_the_readable(kind, deliveries);
    lemma_running_passes_on_in_order(fed(kind, deliveries));
    lemma_stream_end_stops_the_loop(
        fed(kind, deliveries),
        event_for(kind, StreamOutput::End)->Some_0,
        later,
    );
}

proof fn lemma_fed_holds_the_readable(kind: StreamKind, deliveries: Seq<Delivery>)
    requires
        kind is Best || kind is Finality,
    ensures
        forall|i: int|
            0 <= i < fed(kind, deliveries).len() ==> !(#[trigger] fed(
                kind,
                deliveries,
            )[i]).ends_a_stream(),
        notifications(fed(kind, deliveries)) == announced(kind, delivered(deliveries)),
    decreases deliveries.len(),
{
    if deliveries.len() > 0 {
        lemma_fed_holds_the_readable(kind, deliveries.drop_last());
        if deliveries.last() is Ok {
            let events = fed(kind, deliveries);
            assert(events.drop_last() =~= fed(kind, deliveries.drop_last()));
            let headers = delivered(deliveries);
            assert(headers.drop_last() =~= delivered(deliveries.drop_last()));
        }
    }
}

/// Whether a call on the network handle announces a header of the stream
/// of the given kind.
pub open spec fn announces(call: NetworkCall, kind: StreamKind) -> bool {
    match kind {
        StreamKind::Best => call is NewBestBlock,
        StreamKind::Finality => call is BlockFinalized,
        StreamKind::Import => false,
    }
}

/// The calls among `calls` that announce headers of one stream, in their
/// order.
pub open spec fn calls_for(kind: StreamKind, calls: Seq<NetworkCall>) -> Seq<NetworkCall>
    decreases calls.len(),
{
    if calls.len() == 0 {
        Seq::empty()
    } else if announces(calls.last(), kind) {
        calls_for(kind, calls.drop_last()).push(calls.last())
    } else {
        calls_for(kind, calls.drop_last())
    }
}

/// The headers that one stream yielded among the events that the loop was
/// told, in their order.
pub open spec fn headers_from(kind: StreamKind, events: Seq<LoopEvent>) -> Seq<Header>
    decreases events.len(),
{
    if events.len() == 0 {
        Seq::empty()
    } else {
        match (kind, events.last()) {
            (StreamKind::Best, LoopEvent::BestBlock(header)) => headers_from(
                kind,
                events.drop_last(),
            ).push(header),
            (StreamKind::Finality, LoopEvent::Finalized(header)) => headers_from(
                kind,
                events.drop_last(),
            ).push(header),
            _ => headers_from(kind, events.drop_last()),
        }
    }
}

/// However the two streams interleave, the network is told of the headers
/// of each stream in the order in which that stream yielded them: none is
/// left out, repeated or merged with another. Between the streams no order
/// is promised.
pub proof fn lemma_each_stream_keeps_its_order(kind: StreamKind, events: Seq<LoopEvent>)
    requires
        kind is Best || kind is Finality,
        forall|i: int| 0 <= i < events.len() ==> !events[i].ends_a_stream(),
    ensures
        calls_for(kind, LoopState::Running.calls(events)) == announced(
            kind,
            headers_from(kind, events),
        ),
{
    lemma_running_passes_on_in_order(events);
    lemma_calls_for_each_stream(kind, events);
}

proof fn lemma_calls_for_each_stream(kind: StreamKind, events: Seq<LoopEvent>)
    requires
        kind is Best || kind is Finality,
    ensures
        calls_for(kind, notifications(events)) == announced(kind, headers_from(kind, events)),
    decreases events.len(),
{
    if events.len() > 0 {
        lemma_calls_for_each_stream(kind, events.drop_last());
        if events.last().notification() is Some {
            let calls = notifications(events);
            assert(calls.drop_last() =~= notifications(events.drop_last()));
            if announces(calls.last(), kind) {
                let headers = headers_from(kind, events);
                assert(headers.drop_last() =~= headers_from(kind, events.drop_last()));
            }
        }
    }
}

} // verus!
