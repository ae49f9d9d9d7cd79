//! What the session and discovery tasks do with what happens to them, one
//! action, command and expiry at a time.

use vstd::prelude::*;
use crate::daemon::discovery;
use crate::daemon::discovery::{DiscoveryDriverView, DiscoveryEffectView, DiscoveryFsm};
use crate::daemon::events::{DaemonEventView, PeerInfoView};
use crate::daemon::runtime::{SessionCommand, SessionCommandView};
use crate::daemon::session;
use crate::daemon::session::{
    command_view, event_of, EffectView, OutcomeView, ReactionView, SessionDriverView, SessionFsm,
};
use crate::daemon::timer_set::{TimerEntry, TimerSetView};
use crate::fsm::discovery_modem::{ModemDiscoveryFsm, ModemDiscoveryView};
use crate::fsm::discovery_router::{RouterDiscoveryFsm, RouterDiscoveryView};
use crate::fsm::events::{EmittedEventView, FsmActionView, FsmEventView, SendTarget};
use crate::fsm::modem_laws;
use crate::fsm::router_laws;
use crate::fsm::session_modem::{ModemSessionFsm, ModemSessionState, ModemSessionView};
use crate::fsm::session_router::{RouterSessionFsm, RouterSessionState, RouterSessionView};
use crate::fsm::timers::{TimerId, TimerKind, TIMER_HEARTBEAT, TIMER_HEARTBEAT_MISSED};
use crate::proto::addr::SocketAddr;
use crate::proto::signal::SignalView;
use crate::proto::status::StatusCode;

verus! {

/// Starting a timer arms it, under a number one above the last of its own; the
/// first is one, and at the end the numbers begin again.
pub proof fn law_starting_arms(timers: TimerSetView, id: TimerId, periodic: bool)
    ensures
        ({
            let number = if !timers.last.contains_key(id.0) {
                1
            } else if timers.last[id.0] == 0xffff_ffff_ffff_ffff {
                0
            } else {
                timers.last[id.0] + 1
            };
            let after = timers.started(id, periodic);
            &&& timers.upcoming(id) == number
            &&& after.armed == timers.armed.insert(
                id.0,
                TimerEntry { periodic, generation: number as u64 },
            )
            &&& after.last == timers.last.insert(id.0, number as u64)
        }),
{
}

/// Cancelling disarms a timer; an expiry disarms it if it is a single shot; and
/// neither forgets which numbers were given out.
pub proof fn law_cancelling_disarms(timers: TimerSetView, id: TimerId)
    ensures
        timers.cancel(id).armed == timers.armed.remove(id.0),
        timers.cancel(id).last == timers.last,
        timers.forget(id).last == timers.last,
        timers.armed.contains_key(id.0) && !timers.armed[id.0].periodic ==> timers.forget(id).armed
            == timers.armed.remove(id.0),
        timers.armed.contains_key(id.0) && timers.armed[id.0].periodic ==> timers.forget(id)
            == timers,
        !timers.armed.contains_key(id.0) ==> timers.forget(id) == timers,
        forall|other: u32| !TimerSetView::none().armed.contains_key(other),
        forall|other: u32| !TimerSetView::none().last.contains_key(other),
{
}

/// An expiry counts exactly if its timer is armed under its number.
pub proof fn law_current_expiries(timers: TimerSetView, id: TimerId, generation: u64)
    ensures
        timers.is_current(id, generation) <==> timers.armed.contains_key(id.0)
            && timers.armed[id.0].generation == generation,
{
}

/// Actions of a session are worked off in order, each with its own effect: a
/// message is written as its octets, a timer is started under a new number or
/// stopped, a deadline is a single shot, the application is told. Closing the
/// connection is the outcome; a message without a wire form is another, behind
/// which nothing more is done. Signals do not belong to a session.
pub proof fn law_session_actions_are_worked_off(
    timers: TimerSetView,
    actions: Seq<FsmActionView>,
    action: FsmActionView,
)
    ensures
        session::worked_off(timers, Seq::empty()).timers == timers,
        session::worked_off(timers, Seq::empty()).reaction.effects.len() == 0,
        session::worked_off(timers, Seq::empty()).reaction.outcome is Continue,
        ({
            let before = session::worked_off(timers, actions);
            let after = session::worked_off(timers, actions.push(action));
            let effects = before.reaction.effects;
            if before.reaction.outcome is Failed {
                after == before
            } else {
                match action {
                    FsmActionView::SendMessage(message) => {
                        &&& after.timers == before.timers
                        &&& match message.wire_form() {
                            Ok(octets) => {
                                &&& after.reaction.effects == effects.push(
                                    EffectView::Write(octets),
                                )
                                &&& after.reaction.outcome == before.reaction.outcome
                            },
                            Err(e) => {
                                &&& after.reaction.effects == effects
                                &&& after.reaction.outcome == OutcomeView::Failed(e)
                            },
                        }
                    },
                    FsmActionView::SendSignal { .. } => after == before,
                    FsmActionView::StartTimer { id, kind, duration, periodic } => {
                        &&& after.timers == before.timers.started(id, periodic)
                        &&& after.reaction.outcome == before.reaction.outcome
                        &&& after.reaction.effects == effects.push(
                            EffectView::StartTimer {
                                id,
                                kind,
                                duration,
                                periodic,
                                generation: after.timers.armed[id.0].generation,
                            },
                        )
                    },
                    FsmActionView::CancelTimer(id) => {
                        &&& after.timers == before.timers.cancel(id)
                        &&& after.reaction.outcome == before.reaction.outcome
                        &&& after.reaction.effects == effects.push(EffectView::StopTimer(id))
                    },
                    FsmActionView::ResetHeartbeat { timer_id, missed_deadline } => {
                        &&& after.timers == before.timers.started(timer_id, false)
                        &&& after.reaction.outcome == before.reaction.outcome
                        &&& after.reaction.effects == effects.push(
                            EffectView::StartTimer {
                                id: timer_id,
                                kind: TimerKind::HeartbeatMissed,
                                duration: missed_deadline,
                                periodic: false,
                                generation: after.timers.armed[timer_id.0].generation,
                            },
                        )
                    },
                    FsmActionView::CloseTcp => {
                        &&& after.timers == before.timers
                        &&& after.reaction.effects == effects
                        &&& after.reaction.outcome is Close
                    },
                    FsmActionView::Emit(event) => {
                        &&& after.timers == before.timers
                        &&& after.reaction.effects == effects.push(EffectView::Emit(event))
                        &&& after.reaction.outcome == before.reaction.outcome
                    },
                }
            }
        }),
{
    assert(actions.push(action).drop_last() =~= actions);
}

/// Actions of discovery are worked off in order, each with its own effect: a
/// signal goes to the group or to one endpoint as its octets, one without a wire
/// form is reported, timers are started and stopped, and a peer that was found
/// is published. What belongs to sessions is dropped.
pub proof fn law_discovery_actions_are_worked_off(
    timers: TimerSetView,
    actions: Seq<FsmActionView>,
    action: FsmActionView,
)
    ensures
        discovery::worked_off(timers, Seq::empty()).timers == timers,
        discovery::worked_off(timers, Seq::empty()).effects.len() == 0,
        ({
            let before = discovery::worked_off(timers, actions);
            let after = discovery::worked_off(timers, actions.push(action));
            match action {
                FsmActionView::SendSignal { signal, target } => {
                    &&& after.timers == before.timers
                    &&& after.effects == before.effects.push(
                        match signal.wire_form() {
                            Ok(octets) => match target {
                                SendTarget::DiscoveryGroup => DiscoveryEffectView::SendToGroup(
                                    octets,
                                ),
                                SendTarget::Unicast(dest) => DiscoveryEffectView::SendTo {
                                    octets,
                                    dest,
                                },
                            },
                            Err(e) => DiscoveryEffectView::Unsendable(e),
                        },
                    )
                },
                FsmActionView::StartTimer { id, kind, duration, periodic } => {
                    &&& after.timers == before.timers.started(id, periodic)
                    &&& after.effects == before.effects.push(
                        DiscoveryEffectView::StartTimer {
                            id,
                            kind,
                            duration,
                            periodic,
                            generation: after.timers.armed[id.0].generation,
                        },
                    )
                },
                FsmActionView::CancelTimer(id) => {
                    &&& after.timers == before.timers.cancel(id)
                    &&& after.effects == before.effects.push(DiscoveryEffectView::StopTimer(id))
                },
                FsmActionView::Emit(
                    EmittedEventView::PeerDiscovered { addr, peer_description, use_tls },
                ) => {
                    &&& after.timers == before.timers
                    &&& after.effects == before.effects.push(
                        DiscoveryEffectView::Publish(
                            DaemonEventView::PeerDiscovered(
                                PeerInfoView { addr, is_tls: use_tls, peer_description },
                            ),
                        ),
                    )
                },
                _ => after == before,
            }
        }),
{
    assert(actions.push(action).drop_last() =~= actions);
}

/// A driver does to a session what its state machine asks for, of either side.
pub proof fn law_drivers_follow_their_sessions(
    router: SessionDriverView<RouterSessionView>,
    modem: SessionDriverView<ModemSessionView>,
    event: FsmEventView,
)
    ensures
        ({
            let (fsm, actions) = router.fsm.next(event);
            let (after, reaction) = session::reacts::<RouterSessionFsm>(router, event);
            &&& after.fsm == fsm
            &&& after.timers == session::worked_off(router.timers, actions).timers
            &&& after.commands_open == router.commands_open
            &&& reaction == session::worked_off(router.timers, actions).reaction
        }),
        ({
            let (fsm, actions) = modem.fsm.next(event);
            let (after, reaction) = session::reacts::<ModemSessionFsm>(modem, event);
            &&& after.fsm == fsm
            &&& after.timers == session::worked_off(modem.timers, actions).timers
            &&& after.commands_open == modem.commands_open
            &&& reaction == session::worked_off(modem.timers, actions).reaction
        }),
{
}

/// A driver does to discovery what its state machine asks for, of either side.
pub proof fn law_drivers_follow_their_discovery(
    router: DiscoveryDriverView<RouterDiscoveryView>,
    modem: DiscoveryDriverView<ModemDiscoveryView>,
    event: FsmEventView,
)
    ensures
        ({
            let (fsm, actions) = router.fsm.next(event);
            let (after, effects) = discovery::reacts::<RouterDiscoveryFsm>(router, event);
            &&& after.fsm == fsm
            &&& after.timers == discovery::worked_off(router.timers, actions).timers
            &&& effects == discovery::worked_off(router.timers, actions).effects
        }),
        ({
            let (fsm, actions) = modem.fsm.next(event);
            let (after, effects) = discovery::reacts::<ModemDiscoveryFsm>(modem, event);
            &&& after.fsm == fsm
            &&& after.timers == discovery::worked_off(modem.timers, actions).timers
            &&& effects == discovery::worked_off(modem.timers, actions).effects
        }),
{
}

/// An expiry that does not count changes nothing. One that counts is handed on,
/// after a single shot was disarmed and while a periodic timer stays armed.
pub proof fn law_expiries_are_handed_on<F: SessionFsm>(
    driver: SessionDriverView<F::V>,
    id: TimerId,
    kind: TimerKind,
    generation: u64,
)
    ensures
        ({
            let counts = driver.timers.armed.contains_key(id.0)
                && driver.timers.armed[id.0].generation == generation;
            let (after, reaction) = session::reacts_to_expiry::<F>(driver, id, kind, generation);
            let timers = TimerSetView {
                armed: if driver.timers.armed[id.0].periodic {
                    driver.timers.armed
                } else {
                    driver.timers.armed.remove(id.0)
                },
                last: driver.timers.last,
            };
            if counts {
                (after, reaction) == session::reacts::<F>(
                    SessionDriverView { timers, ..driver },
                    FsmEventView::TimerExpired(id, kind),
                )
            } else {
                after == driver && reaction.effects.len() == 0 && reaction.outcome is Continue
            }
        }),
{
    let timers = TimerSetView {
        armed: if driver.timers.armed[id.0].periodic {
            driver.timers.armed
        } else {
            driver.timers.armed.remove(id.0)
        },
        last: driver.timers.last,
    };
    if driver.timers.is_current(id, generation) {
        assert(driver.timers.forget(id) =~= timers);
    }
}

/// The same of discovery.
pub proof fn law_discovery_expiries_are_handed_on<F: DiscoveryFsm>(
    driver: DiscoveryDriverView<F::V>,
    id: TimerId,
    kind: TimerKind,
    generation: u64,
)
    ensures
        ({
            let counts = driver.timers.armed.contains_key(id.0)
                && driver.timers.armed[id.0].generation == generation;
            let (after, effects) = discovery::reacts_to_expiry::<F>(driver, id, kind, generation);
            let timers = TimerSetView {
                armed: if driver.timers.armed[id.0].periodic {
                    driver.timers.armed
                } else {
                    driver.timers.armed.remove(id.0)
                },
                last: driver.timers.last,
            };
            if counts {
                (after, effects) == discovery::reacts::<F>(
                    DiscoveryDriverView { timers, ..driver },
                    FsmEventView::TimerExpired(id, kind),
                )
            } else {
                after == driver && effects.len() == 0
            }
        }),
{
    let timers = TimerSetView {
        armed: if driver.timers.armed[id.0].periodic {
            driver.timers.armed
        } else {
            driver.timers.armed.remove(id.0)
        },
        last: driver.timers.last,
    };
    if driver.timers.is_current(id, generation) {
        assert(driver.timers.forget(id) =~= timers);
    }
}

/// A signal counts exactly if its time to live is 255, and is then handed on
/// with its sender.
pub proof fn law_signals_are_handed_on<F: DiscoveryFsm>(
    driver: DiscoveryDriverView<F::V>,
    signal: SignalView,
    from: SocketAddr,
    ttl: u8,
)
    ensures
        discovery::reacts_to_signal::<F>(driver, signal, from, ttl) == if ttl == 255 {
            discovery::reacts::<F>(driver, FsmEventView::RecvSignal { signal, from })
        } else {
            (driver, Seq::<DiscoveryEffectView>::empty())
        },
{
}

/// Every command says to the session what it says; and when no more commands
/// can come the session is to shut down with status 255.
pub proof fn law_commands_are_handed_on(command: SessionCommand)
    ensures
        event_of(command_view(Some(command))) == match command {
            SessionCommand::Shutdown { reason } => FsmEventView::AppShutdown { reason },
            SessionCommand::AddDestination { mac, metrics, addrs } => {
                FsmEventView::AppAddDestination { mac, metrics, addrs: addrs@ }
            },
            SessionCommand::UpdateDestination { mac, metrics } => FsmEventView::AppUpdateMetrics {
                mac,
                metrics,
            },
            SessionCommand::DropDestination { mac, reason } => FsmEventView::AppDropDestination {
                mac,
                reason,
            },
        },
        event_of(command_view(None)) == (FsmEventView::AppShutdown { reason: StatusCode(255) }),
{
}

/// Every command is what it holds.
pub proof fn law_commands_say_what_they_hold(command: SessionCommand)
    ensures
        match command {
            SessionCommand::Shutdown { reason } => command@ == (SessionCommandView::Shutdown {
                reason,
            }),
            SessionCommand::AddDestination { mac, metrics, addrs } => command@ == (
            SessionCommandView::AddDestination { mac, metrics, addrs: addrs@ }),
            SessionCommand::UpdateDestination { mac, metrics } => command@ == (
            SessionCommandView::UpdateDestination { mac, metrics }),
            SessionCommand::DropDestination { mac, reason } => command@ == (
            SessionCommandView::DropDestination { mac, reason }),
        },
{
}

/// At the end of the stream no session goes on, and every other outcome stays.
pub proof fn law_no_session_outlives_the_stream(reaction: ReactionView)
    ensures
        reaction.at_end().effects == reaction.effects,
        reaction.at_end().outcome == if reaction.outcome is Continue {
            OutcomeView::Ended
        } else {
            reaction.outcome
        },
        ReactionView::none().effects.len() == 0,
        ReactionView::none().outcome is Continue,
{
}

/// Three actions without a message are three effects.
proof fn lemma_stops_and_report(timers: TimerSetView, first: TimerId, second: TimerId, event: EmittedEventView)
    ensures
        ({
            let actions = seq![
                FsmActionView::CancelTimer(first),
                FsmActionView::CancelTimer(second),
                FsmActionView::Emit(event),
            ];
            let progress = session::worked_off(timers, actions);
            &&& progress.timers == timers.cancel(first).cancel(second)
            &&& progress.reaction.outcome is Continue
            &&& progress.reaction.effects == seq![
                EffectView::StopTimer(first),
                EffectView::StopTimer(second),
                EffectView::Emit(event),
            ]
        }),
{
    let actions = seq![
        FsmActionView::CancelTimer(first),
        FsmActionView::CancelTimer(second),
        FsmActionView::Emit(event),
    ];
    let two = actions.drop_last();
    let one = two.drop_last();
    assert(one.drop_last() =~= Seq::<FsmActionView>::empty());
    assert(two.last() == FsmActionView::CancelTimer(second));
    assert(one.last() == FsmActionView::CancelTimer(first));
    reveal_with_fuel(session::worked_off, 4);
    assert(session::worked_off(timers, actions).reaction.effects =~= seq![
        EffectView::StopTimer(first),
        EffectView::StopTimer(second),
        EffectView::Emit(event),
    ]);
}

/// A session whose stream ends while it is up is over: both heartbeat timers are
/// stopped, none of them is armed any more, and the application hears of it with
/// status 132.
pub proof fn law_lost_session_is_reported(
    router: SessionDriverView<RouterSessionView>,
    modem: SessionDriverView<ModemSessionView>,
)
    requires
        router.fsm.state == RouterSessionState::InSession,
        modem.fsm.state == ModemSessionState::InSession,
    ensures
        ({
            let told = seq![
                EffectView::StopTimer(TimerId(TIMER_HEARTBEAT)),
                EffectView::StopTimer(TimerId(TIMER_HEARTBEAT_MISSED)),
                EffectView::Emit(EmittedEventView::SessionDown(StatusCode(132))),
            ];
            let (r, from_router) = session::reacts::<RouterSessionFsm>(
                router,
                FsmEventView::TcpClosed,
            );
            let (m, from_modem) = session::reacts::<ModemSessionFsm>(
                modem,
                FsmEventView::TcpClosed,
            );
            &&& r.fsm.state == RouterSessionState::Terminated
            &&& !r.timers.armed.contains_key(TIMER_HEARTBEAT)
            &&& !r.timers.armed.contains_key(TIMER_HEARTBEAT_MISSED)
            &&& from_router.at_end().effects == told
            &&& from_router.at_end().outcome is Ended
            &&& m.fsm.state == ModemSessionState::Terminated
            &&& !m.timers.armed.contains_key(TIMER_HEARTBEAT)
            &&& !m.timers.armed.contains_key(TIMER_HEARTBEAT_MISSED)
            &&& from_modem.at_end().effects == told
            &&& from_modem.at_end().outcome is Ended
        }),
{
    router_laws::law_router_loses_the_connection(router.fsm);
    modem_laws::law_modem_loses_the_connection(modem.fsm);
    let event = EmittedEventView::SessionDown(StatusCode(132));
    lemma_stops_and_report(
        router.timers,
        TimerId(TIMER_HEARTBEAT),
        TimerId(TIMER_HEARTBEAT_MISSED),
        event,
    );
    lemma_stops_and_report(
        modem.timers,
        TimerId(TIMER_HEARTBEAT),
        TimerId(TIMER_HEARTBEAT_MISSED),
        event,
    );
}

} // verus!
