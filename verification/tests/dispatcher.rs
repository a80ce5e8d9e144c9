use session_router::dispatcher::{
    dispatch, dispatch_all, COMMAND_QUEUE_CAPACITY, EVENT_QUEUE_CAPACITY,
};
use session_router::message::{ClientCommand, ServerEvent, WorkerMessage};
use session_router::registry::{Delivery, Registry};
use session_router::session::SessionId;

fn greeting() -> ServerEvent {
    ServerEvent::Welcome("Hello from Rust".to_string())
}

#[test]
fn welcome_event_carries_the_greeting() {
    assert_eq!(ServerEvent::welcome(), greeting());
}

#[test]
fn queues_hold_thirty_two_entries() {
    assert_eq!(COMMAND_QUEUE_CAPACITY, 32);
    assert_eq!(EVENT_QUEUE_CAPACITY, 32);
}

#[test]
fn connect_greets_the_session_that_sent_it() {
    let mut registry: Registry<&str> = Registry::new();
    registry.enroll(SessionId(1), "alice");
    registry.enroll(SessionId(2), "bob");
    registry.register_stream(SessionId(1), "stream of alice");
    registry.register_stream(SessionId(2), "stream of bob");
    let deliveries =
        dispatch(&registry, WorkerMessage::FromFrontend(SessionId(1), ClientCommand::Connect));
    assert_eq!(
        deliveries,
        vec![Delivery { session: SessionId(1), handle: &"stream of alice", event: greeting() }]
    );
}

#[test]
fn connect_without_a_stream_causes_nothing() {
    let mut registry: Registry<&str> = Registry::new();
    registry.enroll(SessionId(1), "alice");
    registry.enroll(SessionId(2), "bob");
    registry.register_stream(SessionId(2), "stream of bob");
    let deliveries =
        dispatch(&registry, WorkerMessage::FromFrontend(SessionId(1), ClientCommand::Connect));
    assert!(deliveries.is_empty());
}

#[test]
fn connect_for_an_unknown_session_causes_nothing() {
    let mut registry: Registry<&str> = Registry::new();
    registry.enroll(SessionId(2), "bob");
    registry.register_stream(SessionId(2), "stream of bob");
    let deliveries =
        dispatch(&registry, WorkerMessage::FromFrontend(SessionId(9), ClientCommand::Connect));
    assert!(deliveries.is_empty());
}

#[test]
fn connect_after_the_stream_closed_causes_nothing() {
    let mut registry: Registry<&str> = Registry::new();
    registry.enroll(SessionId(1), "alice");
    registry.register_stream(SessionId(1), "stream of alice");
    registry.close_stream(SessionId(1));
    let deliveries =
        dispatch(&registry, WorkerMessage::FromFrontend(SessionId(1), ClientCommand::Connect));
    assert!(deliveries.is_empty());
}

#[test]
fn connect_after_supersession_reaches_the_second_stream_only() {
    let mut registry: Registry<&str> = Registry::new();
    registry.enroll(SessionId(1), "alice");
    registry.register_stream(SessionId(1), "first");
    registry.register_stream(SessionId(1), "second");
    let deliveries =
        dispatch(&registry, WorkerMessage::FromFrontend(SessionId(1), ClientCommand::Connect));
    assert_eq!(
        deliveries,
        vec![Delivery { session: SessionId(1), handle: &"second", event: greeting() }]
    );
}

#[test]
fn batch_is_handled_in_arrival_order() {
    let mut registry: Registry<&str> = Registry::new();
    registry.enroll(SessionId(1), "alice");
    registry.enroll(SessionId(2), "bob");
    registry.enroll(SessionId(3), "carol");
    registry.register_stream(SessionId(1), "a");
    registry.register_stream(SessionId(2), "b");
    let queue = vec![
        WorkerMessage::FromFrontend(SessionId(2), ClientCommand::Connect),
        WorkerMessage::FromFrontend(SessionId(3), ClientCommand::Connect),
        WorkerMessage::FromFrontend(SessionId(1), ClientCommand::Connect),
        WorkerMessage::FromFrontend(SessionId(9), ClientCommand::Connect),
        WorkerMessage::FromFrontend(SessionId(2), ClientCommand::Connect),
    ];
    let deliveries = dispatch_all(&registry, &queue);
    assert_eq!(
        deliveries,
        vec![
            Delivery { session: SessionId(2), handle: &"b", event: greeting() },
            Delivery { session: SessionId(1), handle: &"a", event: greeting() },
            Delivery { session: SessionId(2), handle: &"b", event: greeting() },
        ]
    );
}

#[test]
fn batch_in_the_other_order_delivers_in_the_other_order() {
    let mut registry: Registry<&str> = Registry::new();
    registry.enroll(SessionId(1), "alice");
    registry.enroll(SessionId(2), "bob");
    registry.register_stream(SessionId(1), "a");
    registry.register_stream(SessionId(2), "b");
    let a = WorkerMessage::FromFrontend(SessionId(1), ClientCommand::Connect);
    let b = WorkerMessage::FromFrontend(SessionId(2), ClientCommand::Connect);
    let forward: Vec<SessionId> =
        dispatch_all(&registry, &vec![a, b]).iter().map(|d| d.session).collect();
    let backward: Vec<SessionId> =
        dispatch_all(&registry, &vec![b, a]).iter().map(|d| d.session).collect();
    assert_eq!(forward, vec![SessionId(1), SessionId(2)]);
    assert_eq!(backward, vec![SessionId(2), SessionId(1)]);
}

#[test]
fn empty_batch_causes_nothing() {
    let mut registry: Registry<&str> = Registry::new();
    registry.enroll(SessionId(1), "alice");
    registry.register_stream(SessionId(1), "a");
    assert!(dispatch_all(&registry, &Vec::new()).is_empty());
}

#[test]
fn batch_of_one_is_a_single_dispatch() {
    let mut registry: Registry<&str> = Registry::new();
    registry.enroll(SessionId(1), "alice");
    registry.register_stream(SessionId(1), "a");
    let message = WorkerMessage::FromFrontend(SessionId(1), ClientCommand::Connect);
    assert_eq!(dispatch_all(&registry, &vec![message]), dispatch(&registry, message));
}
