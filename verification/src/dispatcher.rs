//! The dispatcher: the single consumer that takes client commands in arrival
//! order and turns each into the events it causes, addressed to the
//! connections that are live at that moment.
//!
//! The dispatcher decides; it does not send. Every function here returns the
//! deliveries to perform, in the order in which they are to be performed.

use crate::message::{welcome_text, ClientCommand, EventView, ServerEvent, WorkerMessage};
use crate::registry::{Delivery, DeliveryView, Registry, RegistryView};
use crate::session::SessionId;
use vstd::prelude::*;

verus! {

/// The number of commands that may wait for the dispatcher. A producer that
/// finds the queue full waits for room; no command is dropped.
pub const COMMAND_QUEUE_CAPACITY: usize = 32;

/// The number of events that may wait on one connection.
pub const EVENT_QUEUE_CAPACITY: usize = 32;

/// The events that the handler of `command` delivers to the session that
/// sent it, in order.
pub open spec fn handler_events(command: ClientCommand) -> Seq<EventView> {
    match command {
        ClientCommand::Connect => seq![EventView::Welcome(welcome_text())],
    }
}

/// The deliveries that `events`, addressed to `session` in this order,
/// come to: one per event if the session has a live connection, none
/// otherwise.
pub open spec fn routed<H>(registry: RegistryView<H>, session: SessionId, events: Seq<EventView>) -> Seq<
    DeliveryView<H>,
> {
    if registry.connections.contains_key(session) {
        Seq::new(
            events.len(),
            |i: int|
                DeliveryView { session, handle: registry.connections[session], event: events[i] },
        )
    } else {
        Seq::empty()
    }
}

/// The deliveries that one queue entry causes.
pub open spec fn dispatched<H>(registry: RegistryView<H>, message: WorkerMessage) -> Seq<
    DeliveryView<H>,
> {
    match message {
        WorkerMessage::FromFrontend(session, command) => routed(
            registry,
            session,
            handler_events(command),
        ),
    }
}

/// The deliveries that a run of queue entries causes when they are taken
/// strictly in arrival order against one registry: those of the first entry,
/// then those of the second, and so on.
pub open spec fn drained<H>(registry: RegistryView<H>, messages: Seq<WorkerMessage>) -> Seq<
    DeliveryView<H>,
>
    decreases messages.len(),
{
    if messages.len() == 0 {
        Seq::empty()
    } else {
        drained(registry, messages.drop_last()) + dispatched(registry, messages.last())
    }
}

/// The events that the connection `handle` receives when `deliveries` are
/// performed in order.
pub open spec fn received_by<H>(deliveries: Seq<DeliveryView<H>>, handle: H) -> Seq<EventView>
    decreases deliveries.len(),
{
    if deliveries.len() == 0 {
        Seq::empty()
    } else {
        let earlier = received_by(deliveries.drop_last(), handle);
        if deliveries.last().handle == handle {
            earlier.push(deliveries.last().event)
        } else {
            earlier
        }
    }
}

/// The deliveries in `deliveries` as mathematical values, in the same order.
pub open spec fn delivery_views<'a, H>(deliveries: Seq<Delivery<'a, H>>) -> Seq<DeliveryView<H>> {
    Seq::new(deliveries.len(), |i: int| deliveries[i]@)
}

/// Handles one queue entry: runs the handler of its command and returns the
/// deliveries that result.
///
/// The session is not checked for authentication here: an event for a
/// session without a live connection is dropped, and that is all.
pub fn dispatch<'a, H>(registry: &'a Registry<H>, message: WorkerMessage) -> (deliveries: Vec<
    Delivery<'a, H>,
>)
    ensures
        delivery_views(deliveries@) == dispatched(registry@, message),
{
    let mut deliveries: Vec<Delivery<'a, H>> = Vec::new();
    match message {
        WorkerMessage::FromFrontend(session, command) => match command {
            ClientCommand::Connect => {
                match registry.deliver(session, ServerEvent::welcome()) {
                    Some(delivery) => {
                        deliveries.push(delivery);
                    },
                    None => {},
                }
            },
        },
    }
    assert(delivery_views(deliveries@) =~= dispatched(registry@, message));
    deliveries
}

/// Handles a run of queue entries strictly in arrival order and returns all
/// deliveries that result, those of an earlier entry before those of a later
/// one.
pub fn dispatch_all<'a, H>(registry: &'a Registry<H>, messages: &Vec<WorkerMessage>) -> (deliveries:
    Vec<Delivery<'a, H>>)
    ensures
        delivery_views(deliveries@) == drained(registry@, messages@),
{
    let mut deliveries: Vec<Delivery<'a, H>> = Vec::new();
    let mut taken: usize = 0;
    while taken < messages.len()
        invariant
            taken <= messages.len(),
            delivery_views(deliveries@) == drained(registry@, messages@.take(taken as int)),
        decreases messages.len() - taken,
    {
        let ghost before = deliveries@;
        let mut next = dispatch(registry, messages[taken]);
        let ghost added = next@;
        deliveries.append(&mut next);
        proof {
            let upto = messages@.take(taken + 1);
            assert(upto.drop_last() =~= messages@.take(taken as int));
            assert(upto.last() == messages@[taken as int]);
            assert(delivery_views(before + added) =~= delivery_views(before) + delivery_views(
                added,
            ));
        }
        taken += 1;
    }
    assert(messages@.take(taken as int) =~= messages@);
    deliveries
}

} // verus!
