//! What holds of the router as a whole, stated over the mathematical values
//! that the contracts of its functions speak of, and proved.

use crate::dispatcher::{dispatched, drained, handler_events, received_by, routed};
use crate::endpoint::redirect_target;
use crate::message::{welcome_text, ClientCommand, EventView, WorkerMessage};
use crate::registry::{DeliveryView, RegistryView, SessionPhase, StreamOpening};
use crate::session::{hyphenated_text, lemma_text_determines_value, SessionId};
use vstd::prelude::*;

verus! {

/// Every live connection belongs to an authenticated session: this holds of
/// the empty registry, and logging in, opening a stream and closing one keep
/// it.
pub proof fn law_connections_belong_to_sessions<H>(
    registry: RegistryView<H>,
    id: SessionId,
    username: Seq<char>,
    handle: H,
)
    requires
        registry.consistent(),
    ensures
        RegistryView::<H>::empty().consistent(),
        registry.enroll(id, username).consistent(),
        registry.open(id, handle).consistent(),
        registry.close(id).consistent(),
{
}

/// Sessions do not collide: enrolling a session under `id` records its
/// username under `id` and leaves every other identity exactly as it was,
/// its username as well as its connection.
pub proof fn law_sessions_do_not_collide<H>(
    registry: RegistryView<H>,
    id: SessionId,
    username: Seq<char>,
    other: SessionId,
)
    requires
        other != id,
    ensures
        registry.enroll(id, username).is_authenticated(id),
        registry.enroll(id, username).sessions[id] == username,
        registry.enroll(id, username).is_authenticated(other) == registry.is_authenticated(other),
        registry.is_authenticated(other) ==> registry.enroll(id, username).sessions[other]
            == registry.sessions[other],
        registry.enroll(id, username).connection(other) == registry.connection(other),
{
}

/// A failed login leads to a path that no successful login leads to.
pub proof fn law_failure_path_is_distinct(id: SessionId)
    ensures
        redirect_target(None) == "/?login_failed=1"@,
        redirect_target(Some(id)) != redirect_target(None),
{
    reveal_strlit("/?login_failed=1");
    reveal_strlit("/?session_id=");
    assert(redirect_target(None).len() == 16);
    assert(redirect_target(Some(id)).len() == 49);
}

/// The path of a successful login names its session: two logins that are
/// redirected to the same path created the same session.
pub proof fn law_redirect_names_its_session(a: SessionId, b: SessionId)
    requires
        redirect_target(Some(a)) == redirect_target(Some(b)),
    ensures
        a == b,
{
    let prefix = "/?session_id="@;
    let of_a = hyphenated_text(a.0);
    let of_b = hyphenated_text(b.0);
    assert((prefix + of_a).subrange(prefix.len() as int, (prefix + of_a).len() as int) =~= of_a);
    assert((prefix + of_b).subrange(prefix.len() as int, (prefix + of_b).len() as int) =~= of_b);
    lemma_text_determines_value(a.0, b.0);
}

/// Opening a stream for an identity that is not authenticated changes
/// nothing in the registry, is answered by exactly one session-expired
/// notice, and no command addressed to that identity causes any event
/// afterwards: in particular no greeting.
pub proof fn law_unauthenticated_stream_gets_one_notice<H>(
    registry: RegistryView<H>,
    id: SessionId,
    handle: H,
    command: ClientCommand,
)
    requires
        registry.consistent(),
        !registry.is_authenticated(id),
    ensures
        registry.open(id, handle) == registry,
        registry.opening(id, handle).notices() == seq![EventView::SessionExpired],
        dispatched(registry.open(id, handle), WorkerMessage::FromFrontend(id, command))
            == Seq::<DeliveryView<H>>::empty(),
{
}

/// A `Connect` for a session with a live connection causes exactly one
/// delivery: the greeting, to that session's connection. No other
/// connection receives anything.
pub proof fn law_connect_greets_own_stream_only<H>(
    registry: RegistryView<H>,
    session: SessionId,
    elsewhere: H,
)
    requires
        registry.connections.contains_key(session),
        elsewhere != registry.connections[session],
    ensures
        welcome_text() == "Hello from Rust"@,
        dispatched(registry, WorkerMessage::FromFrontend(session, ClientCommand::Connect))
            == seq![
            DeliveryView {
                session,
                handle: registry.connections[session],
                event: EventView::Welcome(welcome_text()),
            },
        ],
        received_by(
            dispatched(registry, WorkerMessage::FromFrontend(session, ClientCommand::Connect)),
            registry.connections[session],
        ) == seq![EventView::Welcome(welcome_text())],
        received_by(
            dispatched(registry, WorkerMessage::FromFrontend(session, ClientCommand::Connect)),
            elsewhere,
        ) == Seq::<EventView>::empty(),
{
    let deliveries = dispatched(
        registry,
        WorkerMessage::FromFrontend(session, ClientCommand::Connect),
    );
    let expected = seq![
        DeliveryView {
            session,
            handle: registry.connections[session],
            event: EventView::Welcome(welcome_text()),
        },
    ];
    assert(deliveries =~= expected);
    lemma_received_by_single(deliveries[0], registry.connections[session]);
    lemma_received_by_single(deliveries[0], elsewhere);
    assert(seq![deliveries[0]] =~= deliveries);
}

/// What a connection receives from a single delivery.
proof fn lemma_received_by_single<H>(delivery: DeliveryView<H>, handle: H)
    ensures
        received_by(seq![delivery], handle) == if delivery.handle == handle {
            seq![delivery.event]
        } else {
            Seq::<EventView>::empty()
        },
{
    let single = seq![delivery];
    assert(single.drop_last() =~= Seq::<DeliveryView<H>>::empty());
    assert(single.last() == delivery);
    assert(received_by(single.drop_last(), handle) =~= Seq::<EventView>::empty());
    assert(Seq::<EventView>::empty().push(delivery.event) =~= seq![delivery.event]);
}

/// A command for a session without a live connection causes no delivery at
/// all, whether or not the session is authenticated.
pub proof fn law_no_stream_no_event<H>(
    registry: RegistryView<H>,
    session: SessionId,
    command: ClientCommand,
)
    requires
        !registry.connections.contains_key(session),
    ensures
        dispatched(registry, WorkerMessage::FromFrontend(session, command)) == Seq::<
            DeliveryView<H>,
        >::empty(),
{
}

/// Commands are handled in arrival order: the deliveries of a run of queue
/// entries followed by another run are those of the first run followed by
/// those of the second.
pub proof fn law_arrival_order_is_kept<H>(
    registry: RegistryView<H>,
    first: Seq<WorkerMessage>,
    second: Seq<WorkerMessage>,
)
    ensures
        drained(registry, first + second) == drained(registry, first) + drained(registry, second),
    decreases second.len(),
{
    if second.len() == 0 {
        assert(first + second =~= first);
        assert(drained(registry, first) + drained(registry, second) =~= drained(registry, first));
    } else {
        let whole = first + second;
        assert(whole.drop_last() =~= first + second.drop_last());
        assert(whole.last() == second.last());
        law_arrival_order_is_kept(registry, first, second.drop_last());
        assert(drained(registry, whole) =~= drained(registry, first) + drained(registry, second));
    }
}

/// Whatever is queued, every delivery goes to the connection that is
/// registered for the session it is addressed to. So a session without a
/// live connection receives nothing, and a handle that is registered for no
/// session receives nothing either.
pub proof fn law_deliveries_reach_registered_connections<H>(
    registry: RegistryView<H>,
    messages: Seq<WorkerMessage>,
    index: int,
)
    requires
        0 <= index < drained(registry, messages).len(),
    ensures
        registry.connections.contains_key(drained(registry, messages)[index].session),
        drained(registry, messages)[index].handle == registry.connections[drained(
            registry,
            messages,
        )[index].session],
    decreases messages.len(),
{
    if messages.len() > 0 {
        let earlier = drained(registry, messages.drop_last());
        if index < earlier.len() {
            law_deliveries_reach_registered_connections(registry, messages.drop_last(), index);
        }
    }
}

/// If a `Connect` for one session is queued before a `Connect` for another
/// and both sessions have live connections, exactly two deliveries result,
/// and the greeting of the first session comes before that of the second.
pub proof fn law_earlier_command_is_delivered_first<H>(
    registry: RegistryView<H>,
    earlier: SessionId,
    later: SessionId,
)
    requires
        registry.connections.contains_key(earlier),
        registry.connections.contains_key(later),
    ensures
        drained(
            registry,
            seq![
                WorkerMessage::FromFrontend(earlier, ClientCommand::Connect),
                WorkerMessage::FromFrontend(later, ClientCommand::Connect),
            ],
        ) == seq![
            DeliveryView {
                session: earlier,
                handle: registry.connections[earlier],
                event: EventView::Welcome(welcome_text()),
            },
            DeliveryView {
                session: later,
                handle: registry.connections[later],
                event: EventView::Welcome(welcome_text()),
            },
        ],
{
    let a = WorkerMessage::FromFrontend(earlier, ClientCommand::Connect);
    let b = WorkerMessage::FromFrontend(later, ClientCommand::Connect);
    lemma_drained_single(registry, a);
    lemma_drained_single(registry, b);
    law_arrival_order_is_kept(registry, seq![a], seq![b]);
    assert(seq![a] + seq![b] =~= seq![a, b]);
    assert(dispatched(registry, a) + dispatched(registry, b) =~= seq![
        DeliveryView {
            session: earlier,
            handle: registry.connections[earlier],
            event: EventView::Welcome(welcome_text()),
        },
        DeliveryView {
            session: later,
            handle: registry.connections[later],
            event: EventView::Welcome(welcome_text()),
        },
    ]);
}

/// A run of one queue entry causes the deliveries of that entry.
proof fn lemma_drained_single<H>(registry: RegistryView<H>, message: WorkerMessage)
    ensures
        drained(registry, seq![message]) == dispatched(registry, message),
{
    let single = seq![message];
    assert(single.drop_last() =~= Seq::<WorkerMessage>::empty());
    assert(drained(registry, single.drop_last()) =~= Seq::<DeliveryView<H>>::empty());
    assert(drained(registry, single) =~= dispatched(registry, message));
}

/// Supersession: when a second stream is opened for a session whose first
/// stream is still registered, the second handle replaces the first, the
/// caller is told which handle was replaced, and from then on every delivery
/// for that session goes to the second handle and none to the first.
pub proof fn law_second_stream_supersedes_first<H>(
    registry: RegistryView<H>,
    session: SessionId,
    first: H,
    second: H,
    command: ClientCommand,
)
    requires
        registry.is_authenticated(session),
        first != second,
    ensures
        registry.open(session, first).opening(session, second).notices() == Seq::<
            EventView,
        >::empty(),
        registry.open(session, first).opening(session, second) == (StreamOpening::Registered {
            superseded: Some(first),
        }),
        registry.open(session, first).open(session, second).connection(session) == Some(second),
        dispatched(
            registry.open(session, first).open(session, second),
            WorkerMessage::FromFrontend(session, command),
        ) == routed(
            registry.open(session, second),
            session,
            handler_events(command),
        ),
        received_by(
            dispatched(
                registry.open(session, first).open(session, second),
                WorkerMessage::FromFrontend(session, command),
            ),
            first,
        ) == Seq::<EventView>::empty(),
        received_by(
            dispatched(
                registry.open(session, first).open(session, second),
                WorkerMessage::FromFrontend(session, command),
            ),
            second,
        ) == handler_events(command),
{
    let after = registry.open(session, first).open(session, second);
    let deliveries = dispatched(after, WorkerMessage::FromFrontend(session, command));
    assert(deliveries =~= routed(registry.open(session, second), session, handler_events(command)));
    lemma_received_by_routed(after, session, handler_events(command), first);
    lemma_received_by_routed(after, session, handler_events(command), second);
}

/// What a connection receives of events routed to a session: all of them,
/// in order, if it is that session's connection, and none otherwise.
proof fn lemma_received_by_routed<H>(
    registry: RegistryView<H>,
    session: SessionId,
    events: Seq<EventView>,
    handle: H,
)
    requires
        registry.connections.contains_key(session),
    ensures
        received_by(routed(registry, session, events), handle) == if registry.connections[session]
            == handle {
            events
        } else {
            Seq::<EventView>::empty()
        },
    decreases events.len(),
{
    let deliveries = routed(registry, session, events);
    if events.len() == 0 {
        assert(received_by(deliveries, handle) =~= Seq::<EventView>::empty());
        assert(events =~= Seq::<EventView>::empty());
    } else {
        assert(deliveries.drop_last() =~= routed(registry, session, events.drop_last()));
        lemma_received_by_routed(registry, session, events.drop_last(), handle);
        if registry.connections[session] == handle {
            assert(events.drop_last().push(events.last()) =~= events);
        }
    }
}

/// A session, once authenticated, stays authenticated: no login, no opening
/// and no closing of a stream removes it, for the same or any other
/// identity.
pub proof fn law_sessions_are_kept<H>(
    registry: RegistryView<H>,
    session: SessionId,
    id: SessionId,
    username: Seq<char>,
    handle: H,
)
    requires
        registry.is_authenticated(session),
    ensures
        registry.enroll(id, username).is_authenticated(session),
        registry.open(id, handle).is_authenticated(session),
        registry.close(id).is_authenticated(session),
{
}

/// The life cycle of a session: a login makes it authenticated, opening a
/// stream makes an authenticated session active and leaves an unknown
/// identity unknown, and closing the stream returns an active session to
/// authenticated while its identity is kept.
pub proof fn law_session_life_cycle<H>(
    registry: RegistryView<H>,
    id: SessionId,
    username: Seq<char>,
    handle: H,
)
    requires
        registry.consistent(),
    ensures
        RegistryView::<H>::empty().phase(id) == SessionPhase::Unauthenticated,
        registry.phase(id) == SessionPhase::Unauthenticated ==> registry.enroll(id, username).phase(
            id,
        ) == SessionPhase::Authenticated,
        registry.phase(id) == SessionPhase::Unauthenticated ==> registry.open(id, handle).phase(id)
            == SessionPhase::Unauthenticated,
        registry.phase(id) != SessionPhase::Unauthenticated ==> registry.open(id, handle).phase(id)
            == SessionPhase::StreamActive,
        registry.phase(id) == SessionPhase::StreamActive ==> registry.close(id).phase(id)
            == SessionPhase::Authenticated,
        registry.close(id).phase(id) != SessionPhase::StreamActive,
        registry.close(id).is_authenticated(id) == registry.is_authenticated(id),
{
}

} // verus!
