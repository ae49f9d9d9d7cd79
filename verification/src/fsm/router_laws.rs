//! What a router's session does, event by event.

use vstd::prelude::*;
use crate::fsm::events::{EmittedEventView, FsmActionView, FsmEventView};
use crate::fsm::session_common;
use crate::fsm::session_common::{SessionConfig, SessionConfigView};
use crate::fsm::session_router::{
    session_initialization, DestinationState, RouterSessionFsm, RouterSessionState,
    RouterSessionView,
};
use crate::fsm::timers::{
    TimerId, TimerKind, TIMER_HEARTBEAT, TIMER_HEARTBEAT_MISSED, TIMER_SESSION_INIT,
    TIMER_TERMINATION,
};
use crate::fsm::transaction::TransactionTracker;
use crate::proto::duration::Duration;
use crate::proto::message::MessageView;
use crate::proto::status::StatusCode;

verus! {

/// No two timers of a session share a handle.
pub proof fn law_timer_handles_differ()
    ensures
        TIMER_SESSION_INIT != TIMER_TERMINATION,
        TIMER_SESSION_INIT != TIMER_HEARTBEAT,
        TIMER_SESSION_INIT != TIMER_HEARTBEAT_MISSED,
        TIMER_TERMINATION != TIMER_HEARTBEAT,
        TIMER_TERMINATION != TIMER_HEARTBEAT_MISSED,
        TIMER_HEARTBEAT != TIMER_HEARTBEAT_MISSED,
{
}

/// The configuration that a session goes by is the one that it was given.
pub proof fn law_configuration_counts(config: SessionConfig)
    ensures
        config@.peer_description == config.peer_description@,
        config@.heartbeat_interval_ms == config.heartbeat_interval_ms,
        config@.session_init_timeout == config.session_init_timeout,
        config@.termination_timeout == config.termination_timeout,
        config@.advertised_extensions == config.advertised_extensions@,
{
}

/// A session without a configuration of its own: a heartbeat a minute, five
/// seconds for the initialization, one for the termination, no extensions.
pub proof fn law_standard_configuration(description: Seq<char>)
    ensures
        ({
            let config = SessionConfigView::standard(description);
            &&& config.peer_description == description
            &&& config.heartbeat_interval_ms == 60_000
            &&& config.session_init_timeout.nanos == 5_000_000_000
            &&& config.termination_timeout.nanos == 1_000_000_000
            &&& config.advertised_extensions.len() == 0
        }),
{
}

/// What is seen of a router's session is what it holds.
pub proof fn law_router_is_what_it_holds(fsm: RouterSessionFsm)
    ensures
        fsm@.state == fsm.state,
        fsm@.tx == fsm.tx@,
        fsm@.destinations == fsm.destinations@,
        fsm@.config == fsm.config@,
        fsm@.peer_heartbeat_interval == fsm.peer_heartbeat_interval,
        fsm@.peer_extensions == fsm.peer_extensions@,
{
}

/// What is seen of requests in flight is what is held of them.
pub proof fn law_requests_are_what_is_held(tx: TransactionTracker)
    ensures
        tx@.session_pending == tx.session_pending,
        tx@.per_destination == tx.per_destination@,
{
}

/// A new session of a router has not begun and knows nothing.
pub proof fn law_fresh_router(config: SessionConfigView)
    ensures
        ({
            let fresh = RouterSessionView::fresh(config);
            &&& fresh.state == RouterSessionState::Closed
            &&& fresh.tx.session_pending is None
            &&& forall|mac| !fresh.tx.per_destination.contains_key(mac)
            &&& forall|mac| !fresh.destinations.contains_key(mac)
            &&& fresh.config == config
            &&& fresh.peer_heartbeat_interval is None
            &&& fresh.peer_extensions.len() == 0
        }),
{
}

/// The deadline at twice the peer's interval, if it announced one of at least a
/// second and timers can hold twice of it.
pub open spec fn rearmed(peer_interval: Option<Duration>) -> Seq<FsmActionView> {
    match peer_interval {
        Some(d) => if 1_000_000_000 <= d.nanos && d.nanos * 2
            <= 18_446_744_073_709_551_615_999_999_999 {
            seq![
                FsmActionView::ResetHeartbeat {
                    timer_id: TimerId(TIMER_HEARTBEAT_MISSED),
                    missed_deadline: Duration { nanos: (d.nanos * 2) as u128 },
                },
            ]
        } else {
            Seq::empty()
        },
        None => Seq::empty(),
    }
}

/// A router whose connection is there sends its initialization and waits for the
/// answer as long as is configured.
pub proof fn law_router_begins(session: RouterSessionView)
    requires
        session.state == RouterSessionState::Closed,
    ensures
        session.next(FsmEventView::TcpConnected) == (
            RouterSessionView { state: RouterSessionState::SessionInitPending, ..session },
            seq![
                FsmActionView::SendMessage(session_initialization(session.config)),
                FsmActionView::StartTimer {
                    id: TimerId(TIMER_SESSION_INIT),
                    kind: TimerKind::SessionInit,
                    duration: session.config.session_init_timeout,
                    periodic: false,
                },
            ],
        ),
{
}

/// When the connection is closed a router's session is over, in every state but
/// the last. Once it had begun the application hears of it: with status 132, or
/// with success where termination was under way; and every timer that may run
/// is stopped, except that of the initialization, which is left to run out.
pub proof fn law_router_loses_the_connection(session: RouterSessionView)
    requires
        session.state != RouterSessionState::Terminated,
    ensures
        session.next(FsmEventView::TcpClosed).0 == (RouterSessionView {
            state: RouterSessionState::Terminated,
            ..session
        }),
        session.next(FsmEventView::TcpClosed).1 == match session.state {
            RouterSessionState::Closed => Seq::<FsmActionView>::empty(),
            RouterSessionState::SessionInitPending => seq![
                FsmActionView::Emit(EmittedEventView::SessionDown(StatusCode(132))),
            ],
            RouterSessionState::InSession => seq![
                FsmActionView::CancelTimer(TimerId(TIMER_HEARTBEAT)),
                FsmActionView::CancelTimer(TimerId(TIMER_HEARTBEAT_MISSED)),
                FsmActionView::Emit(EmittedEventView::SessionDown(StatusCode(132))),
            ],
            _ => seq![
                FsmActionView::CancelTimer(TimerId(TIMER_TERMINATION)),
                FsmActionView::Emit(EmittedEventView::SessionDown(StatusCode(0))),
            ],
        },
{
}

/// A router that is to shut down does so at once before the session is up, and
/// asks the peer for termination, with the reason given, once it is.
pub proof fn law_router_shuts_down(session: RouterSessionView, reason: StatusCode)
    ensures
        match session.state {
            RouterSessionState::Closed => session.next(FsmEventView::AppShutdown { reason }) == (
                RouterSessionView { state: RouterSessionState::Terminated, ..session },
                Seq::<FsmActionView>::empty(),
            ),
            RouterSessionState::SessionInitPending => session.next(
                FsmEventView::AppShutdown { reason },
            ) == (
                RouterSessionView { state: RouterSessionState::Terminated, ..session },
                seq![
                    FsmActionView::CancelTimer(TimerId(TIMER_SESSION_INIT)),
                    FsmActionView::CloseTcp,
                    FsmActionView::Emit(EmittedEventView::SessionDown(reason)),
                ],
            ),
            RouterSessionState::InSession => session.next(FsmEventView::AppShutdown { reason }) == (
                RouterSessionView { state: RouterSessionState::Terminating, ..session },
                seq![
                    FsmActionView::CancelTimer(TimerId(TIMER_HEARTBEAT)),
                    FsmActionView::CancelTimer(TimerId(TIMER_HEARTBEAT_MISSED)),
                    FsmActionView::SendMessage(MessageView::session_termination(reason)),
                    FsmActionView::StartTimer {
                        id: TimerId(TIMER_TERMINATION),
                        kind: TimerKind::Termination,
                        duration: session.config.termination_timeout,
                        periodic: false,
                    },
                ],
            ),
            _ => session.next(FsmEventView::AppShutdown { reason }) == (
                session,
                Seq::<FsmActionView>::empty(),
            ),
        },
{
    if session.state == RouterSessionState::InSession {
        assert(session.next(FsmEventView::AppShutdown { reason }).1 =~= seq![
            FsmActionView::CancelTimer(TimerId(TIMER_HEARTBEAT)),
            FsmActionView::CancelTimer(TimerId(TIMER_HEARTBEAT_MISSED)),
            FsmActionView::SendMessage(MessageView::session_termination(reason)),
            FsmActionView::StartTimer {
                id: TimerId(TIMER_TERMINATION),
                kind: TimerKind::Termination,
                duration: session.config.termination_timeout,
                periodic: false,
            },
        ]);
    }
}

/// The first message that a router receives must be Session Initialization
/// Response. With a status from 128 on it ends the session with that status,
/// with a lower one or none it brings the session up: the peer's interval and
/// extensions are noted, heartbeats go out at the interval that was announced,
/// and the application hears of it. Any other message ends the session with
/// status 130.
pub proof fn law_router_is_answered(session: RouterSessionView, message: MessageView)
    requires
        session.state == RouterSessionState::SessionInitPending,
    ensures
        ({
            let status = match message.status() {
                Some(code) => code,
                None => StatusCode(0),
            };
            let peer_extensions = match message.extensions() {
                Some(ids) => ids,
                None => Seq::empty(),
            };
            let (after, actions) = session.next(FsmEventView::RecvMessage(message));
            if message.message_type.0 == 2 && status.0 < 128 {
                &&& after == (RouterSessionView {
                    state: RouterSessionState::InSession,
                    peer_heartbeat_interval: message.heartbeat_interval(),
                    peer_extensions,
                    ..session
                })
                &&& actions == seq![
                    FsmActionView::CancelTimer(TimerId(TIMER_SESSION_INIT)),
                    FsmActionView::StartTimer {
                        id: TimerId(TIMER_HEARTBEAT),
                        kind: TimerKind::Heartbeat,
                        duration: session.config.heartbeat_interval(),
                        periodic: true,
                    },
                ] + rearmed(message.heartbeat_interval()) + seq![
                    FsmActionView::Emit(EmittedEventView::SessionUp { peer_extensions }),
                ]
            } else {
                &&& after == (RouterSessionView {
                    state: RouterSessionState::Terminated,
                    ..session
                })
                &&& actions == seq![
                    FsmActionView::CancelTimer(TimerId(TIMER_SESSION_INIT)),
                    FsmActionView::CloseTcp,
                    FsmActionView::Emit(
                        EmittedEventView::SessionDown(
                            if message.message_type.0 == 2 {
                                status
                            } else {
                                StatusCode(130)
                            },
                        ),
                    ),
                ]
            }
        }),
{
    let (_, actions) = session.next(FsmEventView::RecvMessage(message));
    assert(session_common::resets(message.heartbeat_interval()) =~= rearmed(
        message.heartbeat_interval(),
    ));
}

/// A router sends heartbeats at the interval that it announces: the timer that
/// sends them is started once when the session comes up, it is periodic, and its
/// span is the one in the initialization that the router sent. That is the
/// configured number of milliseconds, wherever it is at least a thousand.
pub proof fn law_router_beats_as_announced(session: RouterSessionView, message: MessageView, i: int)
    requires
        session.state == RouterSessionState::SessionInitPending,
        session.next(FsmEventView::RecvMessage(message)).0.state == RouterSessionState::InSession,
        0 <= i < session.next(FsmEventView::RecvMessage(message)).1.len(),
    ensures
        ({
            let action = session.next(FsmEventView::RecvMessage(message)).1[i];
            let announced = session_initialization(session.config).data_items[0];
            &&& announced is HeartbeatInterval
            &&& action is StartTimer <==> i == 1
            &&& i == 1 ==> action == (FsmActionView::StartTimer {
                id: TimerId(TIMER_HEARTBEAT),
                kind: TimerKind::Heartbeat,
                duration: announced->HeartbeatInterval_0,
                periodic: true,
            })
            &&& session.config.heartbeat_interval_ms >= 1_000 ==> announced->HeartbeatInterval_0.nanos
                == session.config.heartbeat_interval_ms * 1_000_000
            &&& session.config.heartbeat_interval_ms < 1_000 ==> announced->HeartbeatInterval_0.nanos
                == 1_000_000_000
        }),
{
    law_router_is_answered(session, message);
}

/// What a deadline does when it passes: no answer to the initialization in time
/// ends the session with status 132, two missed heartbeats make the router ask
/// for termination with status 132, no answer to that in time ends the session
/// with status 132; and the heartbeat timer sends a heartbeat. In any other
/// state, and for any other timer, nothing happens.
pub proof fn law_router_deadlines(session: RouterSessionView, id: TimerId, kind: TimerKind)
    ensures
        ({
            let (after, actions) = session.next(FsmEventView::TimerExpired(id, kind));
            let gives_up = (session.state == RouterSessionState::SessionInitPending
                && kind is SessionInit) || (session.state == RouterSessionState::Terminating
                && kind is Termination);
            if gives_up {
                &&& after == (RouterSessionView {
                    state: RouterSessionState::Terminated,
                    ..session
                })
                &&& actions == seq![
                    FsmActionView::CloseTcp,
                    FsmActionView::Emit(EmittedEventView::SessionDown(StatusCode(132))),
                ]
            } else if session.state == RouterSessionState::InSession && kind is Heartbeat {
                &&& after == session
                &&& actions == seq![FsmActionView::SendMessage(MessageView::heartbeat())]
            } else if session.state == RouterSessionState::InSession && kind is HeartbeatMissed {
                &&& after == (RouterSessionView {
                    state: RouterSessionState::Terminating,
                    ..session
                })
                &&& actions == seq![
                    FsmActionView::CancelTimer(TimerId(TIMER_HEARTBEAT)),
                    FsmActionView::SendMessage(MessageView::session_termination(StatusCode(132))),
                    FsmActionView::StartTimer {
                        id: TimerId(TIMER_TERMINATION),
                        kind: TimerKind::Termination,
                        duration: session.config.termination_timeout,
                        periodic: false,
                    },
                ]
            } else {
                after == session && actions.len() == 0
            }
        }),
{
    let (_, actions) = session.next(FsmEventView::TimerExpired(id, kind));
    if session.state == RouterSessionState::InSession && kind is HeartbeatMissed {
        assert(actions =~= seq![
            FsmActionView::CancelTimer(TimerId(TIMER_HEARTBEAT)),
            FsmActionView::SendMessage(MessageView::session_termination(StatusCode(132))),
            FsmActionView::StartTimer {
                id: TimerId(TIMER_TERMINATION),
                kind: TimerKind::Termination,
                duration: session.config.termination_timeout,
                periodic: false,
            },
        ]);
    }
}

/// A router that is asked to terminate answers, closes the connection, and
/// reports the status that was given, or 255 where none was.
pub proof fn law_router_is_terminated(session: RouterSessionView, message: MessageView)
    requires
        session.state == RouterSessionState::InSession,
        message.message_type.0 == 5,
    ensures
        session.next(FsmEventView::RecvMessage(message)) == (
            RouterSessionView { state: RouterSessionState::Terminated, ..session },
            seq![
                FsmActionView::CancelTimer(TimerId(TIMER_HEARTBEAT)),
                FsmActionView::CancelTimer(TimerId(TIMER_HEARTBEAT_MISSED)),
                FsmActionView::SendMessage(MessageView::session_termination_response()),
                FsmActionView::CloseTcp,
                FsmActionView::Emit(
                    EmittedEventView::SessionDown(
                        match message.status() {
                            Some(code) => code,
                            None => StatusCode(255),
                        },
                    ),
                ),
            ],
        ),
{
    let actions = session.next(FsmEventView::RecvMessage(message)).1;
    assert(actions =~= seq![
        FsmActionView::CancelTimer(TimerId(TIMER_HEARTBEAT)),
        FsmActionView::CancelTimer(TimerId(TIMER_HEARTBEAT_MISSED)),
        FsmActionView::SendMessage(MessageView::session_termination_response()),
        FsmActionView::CloseTcp,
        FsmActionView::Emit(
            EmittedEventView::SessionDown(
                match message.status() {
                    Some(code) => code,
                    None => StatusCode(255),
                },
            ),
        ),
    ]);
}

/// A router that waits for termination takes the response as its end, with
/// success, and nothing else.
pub proof fn law_router_ends(session: RouterSessionView, message: MessageView)
    requires
        session.state == RouterSessionState::Terminating,
    ensures
        session.next(FsmEventView::RecvMessage(message)) == if message.message_type.0 == 6 {
            (
                RouterSessionView { state: RouterSessionState::Terminated, ..session },
                seq![
                    FsmActionView::CancelTimer(TimerId(TIMER_TERMINATION)),
                    FsmActionView::CloseTcp,
                    FsmActionView::Emit(EmittedEventView::SessionDown(StatusCode(0))),
                ],
            )
        } else {
            (session, Seq::<FsmActionView>::empty())
        },
{
}

/// A router that hears of a destination that is up notes it, answers with
/// success, and tells the application what was reported. Without an address the
/// session is over with status 130.
pub proof fn law_router_hears_up(session: RouterSessionView, message: MessageView)
    requires
        session.state == RouterSessionState::InSession,
        message.message_type.0 == 7,
    ensures
        match message.mac() {
            Some(mac) => session.next(FsmEventView::RecvMessage(message)) == (
                RouterSessionView {
                    destinations: session.destinations.insert(mac, DestinationState { up: true }),
                    ..session
                },
                seq![
                    FsmActionView::SendMessage(
                        MessageView::destination_up_response(mac, StatusCode(0)),
                    ),
                    FsmActionView::Emit(
                        EmittedEventView::DestinationUp {
                            mac,
                            metrics: message.link_metrics_or_zero(),
                            addrs: session_common::addrs_of(message.data_items),
                        },
                    ),
                ] + rearmed(session.peer_heartbeat_interval),
            ),
            None => session.next(FsmEventView::RecvMessage(message)) == (
                RouterSessionView { state: RouterSessionState::Terminated, ..session },
                seq![
                    FsmActionView::CancelTimer(TimerId(TIMER_HEARTBEAT)),
                    FsmActionView::CancelTimer(TimerId(TIMER_HEARTBEAT_MISSED)),
                    FsmActionView::CloseTcp,
                    FsmActionView::Emit(EmittedEventView::SessionDown(StatusCode(130))),
                ],
            ),
        },
{
    let actions = session.next(FsmEventView::RecvMessage(message)).1;
    assert(session_common::resets(session.peer_heartbeat_interval) =~= rearmed(
        session.peer_heartbeat_interval,
    ));
    if message.mac() is None {
        assert(actions =~= seq![
            FsmActionView::CancelTimer(TimerId(TIMER_HEARTBEAT)),
            FsmActionView::CancelTimer(TimerId(TIMER_HEARTBEAT_MISSED)),
            FsmActionView::CloseTcp,
            FsmActionView::Emit(EmittedEventView::SessionDown(StatusCode(130))),
        ]);
    }
}

/// A router that hears of new metrics tells the application, and answers
/// nothing. Without an address the message is a sign of life and no more.
pub proof fn law_router_hears_update(session: RouterSessionView, message: MessageView)
    requires
        session.state == RouterSessionState::InSession,
        message.message_type.0 == 13,
    ensures
        session.next(FsmEventView::RecvMessage(message)) == (
            session,
            match message.mac() {
                Some(mac) => seq![
                    FsmActionView::Emit(
                        EmittedEventView::DestinationUpdate {
                            mac,
                            metrics: message.link_metrics_or_zero(),
                        },
                    ),
                ] + rearmed(session.peer_heartbeat_interval),
                None => rearmed(session.peer_heartbeat_interval),
            },
        ),
{
    assert(session_common::resets(session.peer_heartbeat_interval) =~= rearmed(
        session.peer_heartbeat_interval,
    ));
}

/// A router that hears of a destination that is down forgets it, answers with
/// success, and tells the application the reason, which is success where none
/// was given. Without an address the message is a sign of life and no more.
pub proof fn law_router_hears_down(session: RouterSessionView, message: MessageView)
    requires
        session.state == RouterSessionState::InSession,
        message.message_type.0 == 11,
    ensures
        session.next(FsmEventView::RecvMessage(message)) == match message.mac() {
            Some(mac) => (
                RouterSessionView { destinations: session.destinations.remove(mac), ..session },
                seq![
                    FsmActionView::SendMessage(
                        MessageView::destination_down_response(mac, StatusCode(0)),
                    ),
                    FsmActionView::Emit(
                        EmittedEventView::DestinationDown {
                            mac,
                            reason: match message.status() {
                                Some(code) => code,
                                None => StatusCode(0),
                            },
                        },
                    ),
                ] + rearmed(session.peer_heartbeat_interval),
            ),
            None => (session, rearmed(session.peer_heartbeat_interval)),
        },
{
    assert(session_common::resets(session.peer_heartbeat_interval) =~= rearmed(
        session.peer_heartbeat_interval,
    ));
}

/// Every other message that a router receives in a session is a sign of life and
/// no more: the deadline is set anew at twice the peer's interval.
pub proof fn law_router_hears_anything(session: RouterSessionView, message: MessageView)
    requires
        session.state == RouterSessionState::InSession,
        message.message_type.0 != 5,
        message.message_type.0 != 7,
        message.message_type.0 != 11,
        message.message_type.0 != 13,
    ensures
        session.next(FsmEventView::RecvMessage(message)) == (
            session,
            rearmed(session.peer_heartbeat_interval),
        ),
{
    assert(session_common::resets(session.peer_heartbeat_interval) =~= rearmed(
        session.peer_heartbeat_interval,
    ));
}

/// Nothing else moves a router's session: not a message before the connection,
/// not what only a modem or discovery is told, and nothing once it is over.
pub proof fn law_router_ignores(session: RouterSessionView, event: FsmEventView)
    requires
        match event {
            FsmEventView::RecvMessage(_) => session.state == RouterSessionState::Closed,
            FsmEventView::TcpConnected => session.state != RouterSessionState::Closed,
            FsmEventView::TcpClosed => false,
            FsmEventView::TimerExpired(_, _) => false,
            FsmEventView::AppShutdown { .. } => false,
            _ => true,
        } || session.state == RouterSessionState::Terminated,
    ensures
        session.next(event) == (session, Seq::<FsmActionView>::empty()),
{
}

} // verus!
