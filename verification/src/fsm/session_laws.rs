//! What holds of the session state machines, alone and as a pair.

use vstd::prelude::*;
use crate::fsm::events::{
    DestinationAddrsView, EmittedEventView, FsmActionView, FsmEventView,
};
use crate::fsm::message_laws;
use crate::fsm::session_common;
use crate::fsm::session_common::SessionConfigView;
use crate::fsm::session_modem::{
    session_initialization_response, ModemSessionState, ModemSessionView,
};
use crate::fsm::session_router::{
    session_initialization, RouterSessionState, RouterSessionView,
};
use crate::fsm::timers::{TimerId, TimerKind, TIMER_HEARTBEAT, TIMER_HEARTBEAT_MISSED};
use crate::fsm::transaction::RequestKind;
use crate::proto::duration::Duration;
use crate::proto::ids::MessageType;
use crate::proto::mac::MacAddress;
use crate::proto::message::MessageView;
use crate::proto::metrics::LinkMetrics;
use crate::proto::status::StatusCode;

verus! {

/// Whether an action sends a message.
pub open spec fn sends_message(action: FsmActionView) -> bool {
    action is SendMessage
}

/// Whether an action reports that the session is down.
pub open spec fn is_down_report(action: FsmActionView) -> bool {
    action matches FsmActionView::Emit(event) && event is SessionDown
}

/// Whether an action reports that the session is up.
pub open spec fn is_up_report(action: FsmActionView) -> bool {
    action matches FsmActionView::Emit(event) && event is SessionUp
}

/// Whether an action touches the timer that sends heartbeats.
pub open spec fn touches_heartbeat_timer(action: FsmActionView) -> bool {
    match action {
        FsmActionView::StartTimer { id, .. } => id.0 == TIMER_HEARTBEAT,
        FsmActionView::CancelTimer(id) => id.0 == TIMER_HEARTBEAT,
        FsmActionView::ResetHeartbeat { timer_id, .. } => timer_id.0 == TIMER_HEARTBEAT,
        _ => false,
    }
}

/// Whether none of the actions is of a kind.
pub open spec fn none_of(actions: Seq<FsmActionView>, kind: spec_fn(FsmActionView) -> bool) -> bool {
    forall|i: int| 0 <= i < actions.len() ==> !kind(#[trigger] actions[i])
}

/// How far a session of the router has come.
pub open spec fn router_progress(state: RouterSessionState) -> int {
    match state {
        RouterSessionState::Closed => 0,
        RouterSessionState::SessionInitPending => 1,
        RouterSessionState::InSession => 2,
        RouterSessionState::Terminating => 3,
        RouterSessionState::Terminated => 4,
    }
}

/// How far a session of the modem has come.
pub open spec fn modem_progress(state: ModemSessionState) -> int {
    match state {
        ModemSessionState::Listening => 0,
        ModemSessionState::AwaitingSessionInit => 1,
        ModemSessionState::InSession => 2,
        ModemSessionState::Terminating => 3,
        ModemSessionState::Terminated => 4,
    }
}

/// A session of the router never goes back, never changes its configuration,
/// and once it is over nothing happens any more.
pub proof fn law_router_progresses(session: RouterSessionView, event: FsmEventView)
    ensures
        router_progress(session.next(event).0.state) >= router_progress(session.state),
        session.next(event).0.config == session.config,
        session.state == RouterSessionState::Terminated ==> session.next(event) == (
            session,
            Seq::<FsmActionView>::empty(),
        ),
{
}

/// A session of the modem never goes back, never changes its configuration,
/// and once it is over nothing happens any more.
pub proof fn law_modem_progresses(session: ModemSessionView, event: FsmEventView)
    ensures
        modem_progress(session.next(event).0.state) >= modem_progress(session.state),
        session.next(event).0.config == session.config,
        session.state == ModemSessionState::Terminated ==> session.next(event) == (
            session,
            Seq::<FsmActionView>::empty(),
        ),
{
}

/// While a router awaits Session Initialization Response it sends no message,
/// whatever happens.
pub proof fn law_router_is_silent_before_session(session: RouterSessionView, event: FsmEventView)
    requires
        session.state == RouterSessionState::SessionInitPending,
    ensures
        none_of(session.next(event).1, |a: FsmActionView| sends_message(a)),
{
}

/// While a modem awaits Session Initialization, every other message ends the
/// session, with no reply and the connection closed.
pub proof fn law_modem_answers_only_initialization(session: ModemSessionView, message: MessageView)
    requires
        session.state == ModemSessionState::AwaitingSessionInit,
        message.message_type != MessageType(MessageType::SESSION_INITIALIZATION),
    ensures
        session.next(FsmEventView::RecvMessage(message)).0.state == ModemSessionState::Terminated,
        none_of(
            session.next(FsmEventView::RecvMessage(message)).1,
            |a: FsmActionView| sends_message(a),
        ),
        session.next(FsmEventView::RecvMessage(message)).1.contains(FsmActionView::CloseTcp),
{
    let actions = session.next(FsmEventView::RecvMessage(message)).1;
    assert(actions[1] == FsmActionView::CloseTcp);
}

/// Whether the last of the actions, and it alone, is of a kind.
pub open spec fn last_alone(
    actions: Seq<FsmActionView>,
    kind: spec_fn(FsmActionView) -> bool,
) -> bool {
    &&& actions.len() > 0
    &&& kind(actions.last())
    &&& none_of(actions.drop_last(), kind)
}

/// The application of a router hears that a session is down exactly when one
/// that had begun is over, once and as the last thing; and that it is up
/// exactly when it comes up.
pub proof fn law_router_reports(session: RouterSessionView, event: FsmEventView)
    ensures
        ({
            let after = session.next(event).0.state;
            let actions = session.next(event).1;
            let down = |a: FsmActionView| is_down_report(a);
            let up = |a: FsmActionView| is_up_report(a);
            &&& if after == RouterSessionState::Terminated && session.state
                != RouterSessionState::Terminated && session.state != RouterSessionState::Closed {
                last_alone(actions, down)
            } else {
                none_of(actions, down)
            }
            &&& if after == RouterSessionState::InSession && session.state
                != RouterSessionState::InSession {
                last_alone(actions, up)
            } else {
                none_of(actions, up)
            }
        }),
{
}

/// The application of a modem hears that a session is down exactly when one
/// that had begun is over, once and as the last thing; and that it is up
/// exactly when it comes up.
pub proof fn law_modem_reports(session: ModemSessionView, event: FsmEventView)
    ensures
        ({
            let after = session.next(event).0.state;
            let actions = session.next(event).1;
            let down = |a: FsmActionView| is_down_report(a);
            let up = |a: FsmActionView| is_up_report(a);
            &&& if after == ModemSessionState::Terminated && session.state
                != ModemSessionState::Terminated && session.state != ModemSessionState::Listening {
                last_alone(actions, down)
            } else {
                none_of(actions, down)
            }
            &&& if after == ModemSessionState::InSession && session.state
                != ModemSessionState::InSession {
                last_alone(actions, up)
            } else {
                none_of(actions, up)
            }
        }),
{
}

/// Whether a heartbeat interval is one that a deadline can be made of: at
/// least a second, and twice of it is a span that timers can hold.
pub open spec fn usable_interval(d: Duration) -> bool {
    Duration::NANOS_PER_SEC <= d.nanos && d.nanos * 2 <= Duration::MAX_NANOS
}

/// The deadline at twice the interval.
pub open spec fn deadline_at_twice(d: Duration) -> FsmActionView {
    FsmActionView::ResetHeartbeat {
        timer_id: TimerId(TIMER_HEARTBEAT_MISSED),
        missed_deadline: Duration { nanos: (d.nanos * 2) as u128 },
    }
}

/// Every message that a router receives in a session, but Session Termination
/// and a `Destination_Up` without an address, lets the session go on, re-arms
/// the missed-heartbeat deadline at twice the peer's interval, and leaves the
/// timer that sends heartbeats alone.
pub proof fn law_router_message_rearms_deadline(
    session: RouterSessionView,
    message: MessageView,
    d: Duration,
)
    requires
        session.state == RouterSessionState::InSession,
        session.peer_heartbeat_interval == Some(d),
        usable_interval(d),
        message.message_type.0 != MessageType::SESSION_TERMINATION,
        message.message_type.0 == MessageType::DESTINATION_UP ==> message.mac() is Some,
    ensures
        session.next(FsmEventView::RecvMessage(message)).0.state == RouterSessionState::InSession,
        session.next(FsmEventView::RecvMessage(message)).1.len() > 0,
        session.next(FsmEventView::RecvMessage(message)).1.last() == deadline_at_twice(d),
        none_of(
            session.next(FsmEventView::RecvMessage(message)).1,
            |a: FsmActionView| touches_heartbeat_timer(a),
        ),
{
}

/// Every message that a modem receives in a session, but Session Termination,
/// lets the session go on, re-arms the missed-heartbeat deadline at twice the
/// peer's interval, and leaves the timer that sends heartbeats alone.
pub proof fn law_modem_message_rearms_deadline(
    session: ModemSessionView,
    message: MessageView,
    d: Duration,
)
    requires
        session.state == ModemSessionState::InSession,
        session.peer_heartbeat_interval == Some(d),
        usable_interval(d),
        message.message_type.0 != MessageType::SESSION_TERMINATION,
    ensures
        session.next(FsmEventView::RecvMessage(message)).0.state == ModemSessionState::InSession,
        session.next(FsmEventView::RecvMessage(message)).1.len() > 0,
        session.next(FsmEventView::RecvMessage(message)).1.last() == deadline_at_twice(d),
        none_of(
            session.next(FsmEventView::RecvMessage(message)).1,
            |a: FsmActionView| touches_heartbeat_timer(a),
        ),
{
}

/// A missed-heartbeat deadline makes either side ask for termination with
/// status 132.
pub proof fn law_missed_heartbeats_terminate(
    router: RouterSessionView,
    modem: ModemSessionView,
    id: TimerId,
)
    requires
        router.state == RouterSessionState::InSession,
        modem.state == ModemSessionState::InSession,
    ensures
        ({
            let event = FsmEventView::TimerExpired(id, TimerKind::HeartbeatMissed);
            let request = FsmActionView::SendMessage(
                MessageView::session_termination(StatusCode(132)),
            );
            &&& router.next(event).0.state == RouterSessionState::Terminating
            &&& router.next(event).1.contains(request)
            &&& modem.next(event).0.state == ModemSessionState::Terminating
            &&& modem.next(event).1.contains(request)
        }),
{
    let event = FsmEventView::TimerExpired(id, TimerKind::HeartbeatMissed);
    let request = FsmActionView::SendMessage(MessageView::session_termination(StatusCode(132)));
    assert(router.next(event).1[1] == request);
    assert(modem.next(event).1[1] == request);
}

/// Requests about a destination are one at a time. One that is in flight is
/// never replaced by another; while it is, adding or dropping the destination
/// does nothing; and a new one comes with exactly one message sent.
pub proof fn law_modem_requests_are_serialised(
    session: ModemSessionView,
    event: FsmEventView,
    mac: MacAddress,
)
    ensures
        ({
            let (after, actions) = session.next(event);
            let before_busy = session.tx.per_destination.contains_key(mac);
            let after_busy = after.tx.per_destination.contains_key(mac);
            &&& before_busy && after_busy ==> after.tx.per_destination[mac]
                == session.tx.per_destination[mac]
            &&& before_busy && (event matches FsmEventView::AppAddDestination { mac: m, .. } && m
                == mac) ==> (after == session && actions.len() == 0)
            &&& before_busy && (event matches FsmEventView::AppDropDestination { mac: m, .. } && m
                == mac) ==> (after == session && actions.len() == 0)
            &&& !before_busy && after_busy ==> actions.len() == 1 && sends_message(actions[0])
        }),
{
}

/// Every open request of a modem is about a destination that it knows.
pub open spec fn requests_are_known(session: ModemSessionView) -> bool {
    forall|mac: MacAddress| #[trigger]
        session.tx.per_destination.contains_key(mac) ==> session.destinations.contains_key(mac)
}

/// A modem after a list of events.
pub open spec fn modem_after(session: ModemSessionView, events: Seq<FsmEventView>) -> ModemSessionView
    decreases events.len(),
{
    if events.len() == 0 {
        session
    } else {
        modem_after(session, events.drop_last()).next(events.last()).0
    }
}

/// Whatever happens to a modem, every open request is about a destination that
/// it knows.
pub proof fn law_modem_requests_are_known(config: SessionConfigView, events: Seq<FsmEventView>)
    ensures
        requests_are_known(modem_after(ModemSessionView::fresh(config), events)),
    decreases events.len(),
{
    if events.len() > 0 {
        law_modem_requests_are_known(config, events.drop_last());
        law_modem_step_keeps_requests_known(
            modem_after(ModemSessionView::fresh(config), events.drop_last()),
            events.last(),
        );
    }
}

/// No event leaves a modem with a request about a destination that it does not
/// know, if it had none before.
pub proof fn law_modem_step_keeps_requests_known(session: ModemSessionView, event: FsmEventView)
    requires
        requests_are_known(session),
    ensures
        requests_are_known(session.next(event).0),
{
}

/// The session-level slot of a modem's requests stays as it is, whatever
/// happens to destinations.
pub proof fn law_modem_session_slot_is_kept(session: ModemSessionView, event: FsmEventView)
    ensures
        session.next(event).0.tx.session_pending == session.tx.session_pending,
{
}

/// A router and a modem that exchange their initializations are both in
/// session, and each knows the heartbeat interval and the extensions of the
/// other.
pub proof fn law_handshake(router_config: SessionConfigView, modem_config: SessionConfigView)
    ensures
        ({
            let router = RouterSessionView::fresh(router_config);
            let modem = ModemSessionView::fresh(modem_config);
            let (router, router_first) = router.next(FsmEventView::TcpConnected);
            let (modem, _) = modem.next(FsmEventView::TcpAccepted);
            let init = session_initialization(router_config);
            let response = session_initialization_response(modem_config);
            let (modem, modem_actions) = modem.next(FsmEventView::RecvMessage(init));
            let (router, router_actions) = router.next(FsmEventView::RecvMessage(response));
            &&& router_first.contains(FsmActionView::SendMessage(init))
            &&& modem_actions.contains(FsmActionView::SendMessage(response))
            &&& router.state == RouterSessionState::InSession
            &&& modem.state == ModemSessionState::InSession
            &&& router.peer_heartbeat_interval == Some(modem_config.heartbeat_interval())
            &&& modem.peer_heartbeat_interval == Some(router_config.heartbeat_interval())
            &&& router.peer_extensions == modem_config.advertised_extensions
            &&& modem.peer_extensions == router_config.advertised_extensions
            &&& router_actions.last() == FsmActionView::Emit(
                EmittedEventView::SessionUp {
                    peer_extensions: modem_config.advertised_extensions,
                },
            )
            &&& modem_actions.last() == FsmActionView::Emit(
                EmittedEventView::SessionUp {
                    peer_extensions: router_config.advertised_extensions,
                },
            )
        }),
{
    message_laws::law_initialization_is_read(router_config);
    message_laws::law_initialization_is_read(modem_config);
    let init = session_initialization(router_config);
    let response = session_initialization_response(modem_config);
    let (router, router_first) = RouterSessionView::fresh(router_config).next(
        FsmEventView::TcpConnected,
    );
    let (modem, _) = ModemSessionView::fresh(modem_config).next(FsmEventView::TcpAccepted);
    let (_, modem_actions) = modem.next(FsmEventView::RecvMessage(init));
    assert(router_first[0] == FsmActionView::SendMessage(init));
    assert(modem_actions[1] == FsmActionView::SendMessage(response));
}

/// A destination that the modem adds comes up on the router, with the metrics
/// and addresses that were given; the router's answer makes it announced on
/// the modem and leaves no request in flight.
pub proof fn law_destination_comes_up(
    router: RouterSessionView,
    modem: ModemSessionView,
    mac: MacAddress,
    metrics: LinkMetrics,
    addrs: DestinationAddrsView,
)
    requires
        router.state == RouterSessionState::InSession,
        modem.state == ModemSessionState::InSession,
        !modem.tx.per_destination.contains_key(mac),
    ensures
        ({
            let up = MessageView::destination_up(mac, metrics, addrs);
            let answer = MessageView::destination_up_response(
                mac,
                StatusCode(StatusCode::SUCCESS),
            );
            let (asked, modem_actions) = modem.next(
                FsmEventView::AppAddDestination { mac, metrics, addrs },
            );
            let (router_after, router_actions) = router.next(FsmEventView::RecvMessage(up));
            let (answered, _) = asked.next(FsmEventView::RecvMessage(answer));
            &&& modem_actions == seq![FsmActionView::SendMessage(up)]
            &&& asked.tx.per_destination.contains_key(mac)
            &&& router_after.destinations.contains_key(mac)
            &&& router_after.destinations[mac].up
            &&& router_actions[0] == FsmActionView::SendMessage(answer)
            &&& router_actions[1] == FsmActionView::Emit(
                EmittedEventView::DestinationUp { mac, metrics, addrs },
            )
            &&& answered.destinations.contains_key(mac)
            &&& answered.destinations[mac].announced
            &&& answered.tx == modem.tx
        }),
{
    message_laws::law_destination_up_is_read(mac, metrics, addrs);
    message_laws::law_destination_status_is_read(mac, StatusCode(StatusCode::SUCCESS));
    let (asked, _) = modem.next(FsmEventView::AppAddDestination { mac, metrics, addrs });
    crate::fsm::transaction::law_close_undoes_open(modem.tx, mac, RequestKind::DestinationUp);
}

/// A destination that the modem drops goes down on the router, for the reason
/// that was given; the router's answer removes it from the modem and leaves no
/// request in flight.
pub proof fn law_destination_goes_down(
    router: RouterSessionView,
    modem: ModemSessionView,
    mac: MacAddress,
    reason: StatusCode,
)
    requires
        router.state == RouterSessionState::InSession,
        modem.state == ModemSessionState::InSession,
        modem.destinations.contains_key(mac),
        !modem.tx.per_destination.contains_key(mac),
    ensures
        ({
            let down = MessageView::destination_down(mac, reason);
            let answer = MessageView::destination_down_response(
                mac,
                StatusCode(StatusCode::SUCCESS),
            );
            let (asked, modem_actions) = modem.next(
                FsmEventView::AppDropDestination { mac, reason },
            );
            let (router_after, router_actions) = router.next(FsmEventView::RecvMessage(down));
            let (answered, _) = asked.next(FsmEventView::RecvMessage(answer));
            &&& modem_actions == seq![FsmActionView::SendMessage(down)]
            &&& asked.destinations.contains_key(mac)
            &&& !router_after.destinations.contains_key(mac)
            &&& router_actions[0] == FsmActionView::SendMessage(answer)
            &&& router_actions[1] == FsmActionView::Emit(
                EmittedEventView::DestinationDown { mac, reason },
            )
            &&& !answered.destinations.contains_key(mac)
            &&& answered.tx == modem.tx
        }),
{
    message_laws::law_destination_status_is_read(mac, reason);
    message_laws::law_destination_status_is_read(mac, StatusCode(StatusCode::SUCCESS));
    crate::fsm::transaction::law_close_undoes_open(modem.tx, mac, RequestKind::DestinationDown);
}

/// New metrics of a known destination reach the router's application as they
/// were given, without an answer.
pub proof fn law_metrics_update_arrives(
    router: RouterSessionView,
    modem: ModemSessionView,
    mac: MacAddress,
    metrics: LinkMetrics,
)
    requires
        router.state == RouterSessionState::InSession,
        modem.state == ModemSessionState::InSession,
        modem.destinations.contains_key(mac),
    ensures
        ({
            let update = MessageView::destination_update(mac, metrics);
            let (modem_after, modem_actions) = modem.next(
                FsmEventView::AppUpdateMetrics { mac, metrics },
            );
            let (router_after, router_actions) = router.next(FsmEventView::RecvMessage(update));
            &&& modem_actions == seq![FsmActionView::SendMessage(update)]
            &&& modem_after == modem
            &&& router_after == router
            &&& router_actions[0] == FsmActionView::Emit(
                EmittedEventView::DestinationUpdate { mac, metrics },
            )
            &&& none_of(router_actions, |a: FsmActionView| sends_message(a))
        }),
{
    message_laws::law_destination_update_is_read(mac, metrics);
}

/// A router that shuts down tells the modem why; the modem answers, and with
/// the answer both sessions are over: on the router with success, on the modem
/// for the router's reason.
pub proof fn law_router_shutdown(
    router: RouterSessionView,
    modem: ModemSessionView,
    reason: StatusCode,
)
    requires
        router.state == RouterSessionState::InSession,
        modem.state == ModemSessionState::InSession,
    ensures
        ({
            let request = MessageView::session_termination(reason);
            let answer = MessageView::session_termination_response();
            let (asked, first) = router.next(FsmEventView::AppShutdown { reason });
            let (modem_after, modem_actions) = modem.next(FsmEventView::RecvMessage(request));
            let (router_after, last) = asked.next(FsmEventView::RecvMessage(answer));
            &&& first.contains(FsmActionView::SendMessage(request))
            &&& modem_actions.contains(FsmActionView::SendMessage(answer))
            &&& modem_after.state == ModemSessionState::Terminated
            &&& modem_actions.last() == session_common::reports_down(reason)
            &&& router_after.state == RouterSessionState::Terminated
            &&& last.last() == session_common::reports_down(StatusCode(StatusCode::SUCCESS))
        }),
{
    message_laws::law_destination_status_is_read(arbitrary(), reason);
    let request = MessageView::session_termination(reason);
    let answer = MessageView::session_termination_response();
    assert(router.next(FsmEventView::AppShutdown { reason }).1[2] == FsmActionView::SendMessage(
        request,
    ));
    assert(modem.next(FsmEventView::RecvMessage(request)).1[2] == FsmActionView::SendMessage(
        answer,
    ));
}

/// A modem that shuts down tells the router why; the router answers, and with
/// the answer both sessions are over: on the modem with success, on the router
/// for the modem's reason.
pub proof fn law_modem_shutdown(
    router: RouterSessionView,
    modem: ModemSessionView,
    reason: StatusCode,
)
    requires
        router.state == RouterSessionState::InSession,
        modem.state == ModemSessionState::InSession,
    ensures
        ({
            let request = MessageView::session_termination(reason);
            let answer = MessageView::session_termination_response();
            let (asked, first) = modem.next(FsmEventView::AppShutdown { reason });
            let (router_after, router_actions) = router.next(FsmEventView::RecvMessage(request));
            let (modem_after, last) = asked.next(FsmEventView::RecvMessage(answer));
            &&& first.contains(FsmActionView::SendMessage(request))
            &&& router_actions.contains(FsmActionView::SendMessage(answer))
            &&& router_after.state == RouterSessionState::Terminated
            &&& router_actions.last() == session_common::reports_down(reason)
            &&& modem_after.state == ModemSessionState::Terminated
            &&& last.last() == session_common::reports_down(StatusCode(StatusCode::SUCCESS))
        }),
{
    message_laws::law_destination_status_is_read(arbitrary(), reason);
    let request = MessageView::session_termination(reason);
    let answer = MessageView::session_termination_response();
    assert(modem.next(FsmEventView::AppShutdown { reason }).1[2] == FsmActionView::SendMessage(
        request,
    ));
    assert(router.next(FsmEventView::RecvMessage(request)).1[2] == FsmActionView::SendMessage(
        answer,
    ));
}

} // verus!
