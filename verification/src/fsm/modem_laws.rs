//! What a modem's session does, event by event.

use vstd::prelude::*;
use crate::fsm::events::{
    DestinationAddrsView, EmittedEventView, FsmActionView, FsmEventView,
};
use crate::fsm::router_laws::rearmed;
use crate::fsm::session_common;
use crate::fsm::session_common::SessionConfigView;
use crate::fsm::session_modem::{
    session_initialization_response, DestinationState, ModemSessionFsm, ModemSessionState,
    ModemSessionView,
};
use crate::fsm::timers::{
    TimerId, TimerKind, TIMER_HEARTBEAT, TIMER_HEARTBEAT_MISSED, TIMER_SESSION_INIT,
    TIMER_TERMINATION,
};
use crate::fsm::transaction::{PendingRequest, RequestKind, TransactionView};
use crate::proto::mac::MacAddress;
use crate::proto::message::MessageView;
use crate::proto::metrics::LinkMetrics;
use crate::proto::status::StatusCode;

verus! {

/// What is seen of a modem's session is what it holds.
pub proof fn law_modem_is_what_it_holds(fsm: ModemSessionFsm)
    ensures
        fsm@.state == fsm.state,
        fsm@.tx == fsm.tx@,
        fsm@.destinations == fsm.destinations@,
        fsm@.config == fsm.config@,
        fsm@.peer_heartbeat_interval == fsm.peer_heartbeat_interval,
        fsm@.peer_extensions == fsm.peer_extensions@,
{
}

/// A new session of a modem has not begun and knows nothing.
pub proof fn law_fresh_modem(config: SessionConfigView)
    ensures
        ({
            let fresh = ModemSessionView::fresh(config);
            &&& fresh.state == ModemSessionState::Listening
            &&& fresh.tx.session_pending is None
            &&& forall|mac| !fresh.tx.per_destination.contains_key(mac)
            &&& forall|mac| !fresh.destinations.contains_key(mac)
            &&& fresh.config == config
            &&& fresh.peer_heartbeat_interval is None
            &&& fresh.peer_extensions.len() == 0
        }),
{
}

/// A modem that is connected to waits for the initialization as long as is
/// configured, and says nothing.
pub proof fn law_modem_begins(session: ModemSessionView)
    requires
        session.state == ModemSessionState::Listening,
    ensures
        session.next(FsmEventView::TcpAccepted) == (
            ModemSessionView { state: ModemSessionState::AwaitingSessionInit, ..session },
            seq![
                FsmActionView::StartTimer {
                    id: TimerId(TIMER_SESSION_INIT),
                    kind: TimerKind::SessionInit,
                    duration: session.config.session_init_timeout,
                    periodic: false,
                },
            ],
        ),
{
}

/// When the connection is closed a modem's session is over, in every state but
/// the last. Once it had begun every timer that may run is stopped and the
/// application hears of it: with status 132, or with success where termination
/// was under way.
pub proof fn law_modem_loses_the_connection(session: ModemSessionView)
    requires
        session.state != ModemSessionState::Terminated,
    ensures
        session.next(FsmEventView::TcpClosed).0 == (ModemSessionView {
            state: ModemSessionState::Terminated,
            ..session
        }),
        session.next(FsmEventView::TcpClosed).1 == match session.state {
            ModemSessionState::Listening => Seq::<FsmActionView>::empty(),
            ModemSessionState::AwaitingSessionInit => seq![
                FsmActionView::CancelTimer(TimerId(TIMER_SESSION_INIT)),
                FsmActionView::Emit(EmittedEventView::SessionDown(StatusCode(132))),
            ],
            ModemSessionState::InSession => seq![
                FsmActionView::CancelTimer(TimerId(TIMER_HEARTBEAT)),
                FsmActionView::CancelTimer(TimerId(TIMER_HEARTBEAT_MISSED)),
                FsmActionView::Emit(EmittedEventView::SessionDown(StatusCode(132))),
            ],
            _ => seq![
                FsmActionView::CancelTimer(TimerId(TIMER_TERMINATION)),
                FsmActionView::Emit(EmittedEventView::SessionDown(StatusCode(0))),
            ],
        },
{
}

/// A modem that is to shut down does so at once before the session is up, and
/// asks the peer for termination, with the reason given, once it is.
pub proof fn law_modem_shuts_down(session: ModemSessionView, reason: StatusCode)
    ensures
        session.next(FsmEventView::AppShutdown { reason }) == match session.state {
            ModemSessionState::Listening => (
                ModemSessionView { state: ModemSessionState::Terminated, ..session },
                Seq::<FsmActionView>::empty(),
            ),
            ModemSessionState::AwaitingSessionInit => (
                ModemSessionView { state: ModemSessionState::Terminated, ..session },
                seq![
                    FsmActionView::CancelTimer(TimerId(TIMER_SESSION_INIT)),
                    FsmActionView::CloseTcp,
                    FsmActionView::Emit(EmittedEventView::SessionDown(reason)),
                ],
            ),
            ModemSessionState::InSession => (
                ModemSessionView { state: ModemSessionState::Terminating, ..session },
                seq![
                    FsmActionView::CancelTimer(TimerId(TIMER_HEARTBEAT)),
                    FsmActionView::CancelTimer(TimerId(TIMER_HEARTBEAT_MISSED)),
                    FsmActionView::SendMessage(MessageView::session_termination(reason)),
                    FsmActionView::StartTimer {
                        id: TimerId(TIMER_TERMINATION),
                        kind: TimerKind::Termination,
                        duration: session.config.termination_timeout,
                        periodic: false,
                    },
                ],
            ),
            _ => (session, Seq::<FsmActionView>::empty()),
        },
{
    if session.state == ModemSessionState::InSession {
        assert(session.next(FsmEventView::AppShutdown { reason }).1 =~= seq![
            FsmActionView::CancelTimer(TimerId(TIMER_HEARTBEAT)),
            FsmActionView::CancelTimer(TimerId(TIMER_HEARTBEAT_MISSED)),
            FsmActionView::SendMessage(MessageView::session_termination(reason)),
            FsmActionView::StartTimer {
                id: TimerId(TIMER_TERMINATION),
                kind: TimerKind::Termination,
                duration: session.config.termination_timeout,
                periodic: false,
            },
        ]);
    }
}

/// The first message that a modem receives must be Session Initialization. It is
/// answered and brings the session up: the peer's interval and extensions are
/// noted, heartbeats go out at the interval that was announced, and the
/// application hears of it. Any other message ends the session with status 130
/// and no answer.
pub proof fn law_modem_is_initialized(session: ModemSessionView, message: MessageView)
    requires
        session.state == ModemSessionState::AwaitingSessionInit,
    ensures
        ({
            let peer_extensions = match message.extensions() {
                Some(ids) => ids,
                None => Seq::empty(),
            };
            let (after, actions) = session.next(FsmEventView::RecvMessage(message));
            if message.message_type.0 == 1 {
                &&& after == (ModemSessionView {
                    state: ModemSessionState::InSession,
                    peer_heartbeat_interval: message.heartbeat_interval(),
                    peer_extensions,
                    ..session
                })
                &&& actions == seq![
                    FsmActionView::CancelTimer(TimerId(TIMER_SESSION_INIT)),
                    FsmActionView::SendMessage(session_initialization_response(session.config)),
                    FsmActionView::StartTimer {
                        id: TimerId(TIMER_HEARTBEAT),
                        kind: TimerKind::Heartbeat,
                        duration: session.config.heartbeat_interval(),
                        periodic: true,
                    },
                ] + rearmed(message.heartbeat_interval()) + seq![
                    FsmActionView::Emit(EmittedEventView::SessionUp { peer_extensions }),
                ]
            } else {
                &&& after == (ModemSessionView {
                    state: ModemSessionState::Terminated,
                    ..session
                })
                &&& actions == seq![
                    FsmActionView::CancelTimer(TimerId(TIMER_SESSION_INIT)),
                    FsmActionView::CloseTcp,
                    FsmActionView::Emit(EmittedEventView::SessionDown(StatusCode(130))),
                ]
            }
        }),
{
    assert(session_common::resets(message.heartbeat_interval()) =~= rearmed(
        message.heartbeat_interval(),
    ));
}

/// A modem sends heartbeats at the interval that it announces: the timer that
/// sends them is started once when the session comes up, it is periodic, and its
/// span is the one in the response that the modem sends. That is the configured
/// number of milliseconds, wherever it is at least a thousand.
pub proof fn law_modem_beats_as_announced(session: ModemSessionView, message: MessageView, i: int)
    requires
        session.state == ModemSessionState::AwaitingSessionInit,
        session.next(FsmEventView::RecvMessage(message)).0.state == ModemSessionState::InSession,
        0 <= i < session.next(FsmEventView::RecvMessage(message)).1.len(),
    ensures
        ({
            let actions = session.next(FsmEventView::RecvMessage(message)).1;
            let announced = actions[1]->SendMessage_0.data_items[1];
            &&& actions[1] is SendMessage
            &&& announced is HeartbeatInterval
            &&& actions[i] is StartTimer <==> i == 2
            &&& actions[2] == (FsmActionView::StartTimer {
                id: TimerId(TIMER_HEARTBEAT),
                kind: TimerKind::Heartbeat,
                duration: announced->HeartbeatInterval_0,
                periodic: true,
            })
            &&& session.config.heartbeat_interval_ms >= 1_000 ==> announced->HeartbeatInterval_0.nanos
                == session.config.heartbeat_interval_ms * 1_000_000
            &&& session.config.heartbeat_interval_ms < 1_000 ==> announced->HeartbeatInterval_0.nanos
                == 1_000_000_000
        }),
{
    law_modem_is_initialized(session, message);
}

/// What a deadline does when it passes: no initialization in time ends the
/// session with status 132, two missed heartbeats make the modem ask for
/// termination with status 132, no answer to that in time ends the session with
/// status 132; and the heartbeat timer sends a heartbeat. In any other state,
/// and for any other timer, nothing happens.
pub proof fn law_modem_deadlines(session: ModemSessionView, id: TimerId, kind: TimerKind)
    ensures
        ({
            let (after, actions) = session.next(FsmEventView::TimerExpired(id, kind));
            let gives_up = (session.state == ModemSessionState::AwaitingSessionInit
                && kind is SessionInit) || (session.state == ModemSessionState::Terminating
                && kind is Termination);
            if gives_up {
                &&& after == (ModemSessionView { state: ModemSessionState::Terminated, ..session })
                &&& actions == seq![
                    FsmActionView::CloseTcp,
                    FsmActionView::Emit(EmittedEventView::SessionDown(StatusCode(132))),
                ]
            } else if session.state == ModemSessionState::InSession && kind is Heartbeat {
                &&& after == session
                &&& actions == seq![FsmActionView::SendMessage(MessageView::heartbeat())]
            } else if session.state == ModemSessionState::InSession && kind is HeartbeatMissed {
                &&& after == (ModemSessionView { state: ModemSessionState::Terminating, ..session })
                &&& actions == seq![
                    FsmActionView::CancelTimer(TimerId(TIMER_HEARTBEAT)),
                    FsmActionView::SendMessage(MessageView::session_termination(StatusCode(132))),
                    FsmActionView::StartTimer {
                        id: TimerId(TIMER_TERMINATION),
                        kind: TimerKind::Termination,
                        duration: session.config.termination_timeout,
                        periodic: false,
                    },
                ]
            } else {
                after == session && actions.len() == 0
            }
        }),
{
    let (_, actions) = session.next(FsmEventView::TimerExpired(id, kind));
    if session.state == ModemSessionState::InSession && kind is HeartbeatMissed {
        assert(actions =~= seq![
            FsmActionView::CancelTimer(TimerId(TIMER_HEARTBEAT)),
            FsmActionView::SendMessage(MessageView::session_termination(StatusCode(132))),
            FsmActionView::StartTimer {
                id: TimerId(TIMER_TERMINATION),
                kind: TimerKind::Termination,
                duration: session.config.termination_timeout,
                periodic: false,
            },
        ]);
    }
}

/// A modem that is asked to terminate answers, closes the connection, and
/// reports the status that was given, or 255 where none was.
pub proof fn law_modem_is_terminated(session: ModemSessionView, message: MessageView)
    requires
        session.state == ModemSessionState::InSession,
        message.message_type.0 == 5,
    ensures
        session.next(FsmEventView::RecvMessage(message)) == (
            ModemSessionView { state: ModemSessionState::Terminated, ..session },
            seq![
                FsmActionView::CancelTimer(TimerId(TIMER_HEARTBEAT)),
                FsmActionView::CancelTimer(TimerId(TIMER_HEARTBEAT_MISSED)),
                FsmActionView::SendMessage(MessageView::session_termination_response()),
                FsmActionView::CloseTcp,
                FsmActionView::Emit(
                    EmittedEventView::SessionDown(
                        match message.status() {
                            Some(code) => code,
                            None => StatusCode(255),
                        },
                    ),
                ),
            ],
        ),
{
    let actions = session.next(FsmEventView::RecvMessage(message)).1;
    assert(actions =~= seq![
        FsmActionView::CancelTimer(TimerId(TIMER_HEARTBEAT)),
        FsmActionView::CancelTimer(TimerId(TIMER_HEARTBEAT_MISSED)),
        FsmActionView::SendMessage(MessageView::session_termination_response()),
        FsmActionView::CloseTcp,
        FsmActionView::Emit(
            EmittedEventView::SessionDown(
                match message.status() {
                    Some(code) => code,
                    None => StatusCode(255),
                },
            ),
        ),
    ]);
}

/// A modem that waits for termination takes the response as its end, with
/// success, and nothing else.
pub proof fn law_modem_ends(session: ModemSessionView, message: MessageView)
    requires
        session.state == ModemSessionState::Terminating,
    ensures
        session.next(FsmEventView::RecvMessage(message)) == if message.message_type.0 == 6 {
            (
                ModemSessionView { state: ModemSessionState::Terminated, ..session },
                seq![
                    FsmActionView::CancelTimer(TimerId(TIMER_TERMINATION)),
                    FsmActionView::CloseTcp,
                    FsmActionView::Emit(EmittedEventView::SessionDown(StatusCode(0))),
                ],
            )
        } else {
            (session, Seq::<FsmActionView>::empty())
        },
{
}

/// The answer to `Destination_Up` closes the request. Success, which is meant
/// where no status is given, makes a destination that is known announced; any
/// other status drops it.
pub proof fn law_modem_hears_up_response(session: ModemSessionView, message: MessageView)
    requires
        session.state == ModemSessionState::InSession,
        message.message_type.0 == 8,
    ensures
        session.next(FsmEventView::RecvMessage(message)).1 == rearmed(
            session.peer_heartbeat_interval,
        ),
        session.next(FsmEventView::RecvMessage(message)).0 == match message.mac() {
            Some(mac) => {
                let accepted = match message.status() {
                    Some(code) => code.0 == 0,
                    None => true,
                };
                ModemSessionView {
                    tx: TransactionView {
                        session_pending: session.tx.session_pending,
                        per_destination: session.tx.per_destination.remove(mac),
                    },
                    destinations: if !accepted {
                        session.destinations.remove(mac)
                    } else if session.destinations.contains_key(mac) {
                        session.destinations.insert(mac, DestinationState { announced: true })
                    } else {
                        session.destinations
                    },
                    ..session
                }
            },
            None => session,
        },
{
    assert(session_common::resets(session.peer_heartbeat_interval) =~= rearmed(
        session.peer_heartbeat_interval,
    ));
}

/// The answer to `Destination_Down` closes the request and drops the
/// destination, whatever the status.
pub proof fn law_modem_hears_down_response(session: ModemSessionView, message: MessageView)
    requires
        session.state == ModemSessionState::InSession,
        message.message_type.0 == 12,
    ensures
        session.next(FsmEventView::RecvMessage(message)).1 == rearmed(
            session.peer_heartbeat_interval,
        ),
        session.next(FsmEventView::RecvMessage(message)).0 == match message.mac() {
            Some(mac) => ModemSessionView {
                tx: TransactionView {
                    session_pending: session.tx.session_pending,
                    per_destination: session.tx.per_destination.remove(mac),
                },
                destinations: session.destinations.remove(mac),
                ..session
            },
            None => session,
        },
{
    assert(session_common::resets(session.peer_heartbeat_interval) =~= rearmed(
        session.peer_heartbeat_interval,
    ));
}

/// Every other message that a modem receives in a session is a sign of life and
/// no more: the deadline is set anew at twice the peer's interval.
pub proof fn law_modem_hears_anything(session: ModemSessionView, message: MessageView)
    requires
        session.state == ModemSessionState::InSession,
        message.message_type.0 != 5,
        message.message_type.0 != 8,
        message.message_type.0 != 12,
    ensures
        session.next(FsmEventView::RecvMessage(message)) == (
            session,
            rearmed(session.peer_heartbeat_interval),
        ),
{
    assert(session_common::resets(session.peer_heartbeat_interval) =~= rearmed(
        session.peer_heartbeat_interval,
    ));
}

/// A modem that is to add a destination sends `Destination_Up` with what it was
/// given and opens a request, unless one about the destination is open. A
/// destination that was not known is one that is not announced yet.
pub proof fn law_modem_adds(
    session: ModemSessionView,
    mac: MacAddress,
    metrics: LinkMetrics,
    addrs: DestinationAddrsView,
)
    requires
        session.state == ModemSessionState::InSession,
    ensures
        session.next(FsmEventView::AppAddDestination { mac, metrics, addrs })
            == if session.tx.per_destination.contains_key(mac) {
            (session, Seq::<FsmActionView>::empty())
        } else {
            (
                ModemSessionView {
                    tx: TransactionView {
                        session_pending: session.tx.session_pending,
                        per_destination: session.tx.per_destination.insert(
                            mac,
                            PendingRequest { kind: RequestKind::DestinationUp },
                        ),
                    },
                    destinations: if session.destinations.contains_key(mac) {
                        session.destinations
                    } else {
                        session.destinations.insert(mac, DestinationState { announced: false })
                    },
                    ..session
                },
                seq![
                    FsmActionView::SendMessage(MessageView::destination_up(mac, metrics, addrs)),
                ],
            )
        },
{
}

/// A modem that is to drop a destination that it knows sends `Destination_Down`
/// with the reason and opens a request, unless one about the destination is
/// open. The destination stays until the answer is there.
pub proof fn law_modem_drops(session: ModemSessionView, mac: MacAddress, reason: StatusCode)
    requires
        session.state == ModemSessionState::InSession,
    ensures
        session.next(FsmEventView::AppDropDestination { mac, reason })
            == if session.destinations.contains_key(mac) && !session.tx.per_destination.contains_key(
            mac,
        ) {
            (
                ModemSessionView {
                    tx: TransactionView {
                        session_pending: session.tx.session_pending,
                        per_destination: session.tx.per_destination.insert(
                            mac,
                            PendingRequest { kind: RequestKind::DestinationDown },
                        ),
                    },
                    ..session
                },
                seq![FsmActionView::SendMessage(MessageView::destination_down(mac, reason))],
            )
        } else {
            (session, Seq::<FsmActionView>::empty())
        },
{
}

/// New metrics of a destination that the modem knows are sent as they were
/// given, and nothing changes; those of another are not sent.
pub proof fn law_modem_updates(session: ModemSessionView, mac: MacAddress, metrics: LinkMetrics)
    requires
        session.state == ModemSessionState::InSession,
    ensures
        session.next(FsmEventView::AppUpdateMetrics { mac, metrics }) == (
            session,
            if session.destinations.contains_key(mac) {
                seq![FsmActionView::SendMessage(MessageView::destination_update(mac, metrics))]
            } else {
                Seq::<FsmActionView>::empty()
            },
        ),
{
}

/// Nothing else moves a modem's session: not a message before the connection,
/// not what is asked of it outside a session, not what only a router or
/// discovery is told, and nothing once it is over.
pub proof fn law_modem_ignores(session: ModemSessionView, event: FsmEventView)
    requires
        match event {
            FsmEventView::RecvMessage(_) => session.state == ModemSessionState::Listening,
            FsmEventView::TcpAccepted => session.state != ModemSessionState::Listening,
            FsmEventView::TcpClosed => false,
            FsmEventView::TimerExpired(_, _) => false,
            FsmEventView::AppShutdown { .. } => false,
            FsmEventView::AppAddDestination { .. } => session.state
                != ModemSessionState::InSession,
            FsmEventView::AppDropDestination { .. } => session.state
                != ModemSessionState::InSession,
            FsmEventView::AppUpdateMetrics { .. } => session.state != ModemSessionState::InSession,
            _ => true,
        } || session.state == ModemSessionState::Terminated,
    ensures
        session.next(event) == (session, Seq::<FsmActionView>::empty()),
{
}

} // verus!
