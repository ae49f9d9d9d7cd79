//! What holds of session drivers.

use vstd::prelude::*;
use crate::daemon::session::{
    reacts, reacts_to_expiry, worked_off, EffectView, ReactionView, SessionDriverView,
};
use crate::daemon::timer_set::TimerSetView;
use crate::fsm::events::{EmittedEventView, FsmActionView, FsmEventView};
use crate::fsm::message_laws;
use crate::fsm::session_common::SessionConfigView;
use crate::fsm::session_laws;
use crate::fsm::session_modem::{
    session_initialization_response, ModemSessionFsm, ModemSessionState, ModemSessionView,
};
use crate::fsm::session_router::{
    session_initialization, RouterSessionFsm, RouterSessionState, RouterSessionView,
};
use crate::fsm::timers::{TimerId, TimerKind, TIMER_HEARTBEAT_MISSED};
use crate::proto::duration::Duration;
use crate::proto::error::CodecErrorView;
use crate::proto::ids::MessageType;
use crate::proto::message::MessageView;

verus! {

/// Whether an action is about the timer at `id`.
pub open spec fn touches(action: FsmActionView, id: TimerId) -> bool {
    match action {
        FsmActionView::StartTimer { id: at, .. } => at == id,
        FsmActionView::CancelTimer(at) => at == id,
        FsmActionView::ResetHeartbeat { timer_id, .. } => timer_id == id,
        _ => false,
    }
}

/// Actions that are not about a timer leave it as it is.
proof fn lemma_untouched(timers: TimerSetView, actions: Seq<FsmActionView>, id: TimerId)
    requires
        forall|i: int| 0 <= i < actions.len() ==> !touches(#[trigger] actions[i], id),
    ensures
        ({
            let after = worked_off(timers, actions).timers;
            &&& after.armed.contains_key(id.0) == timers.armed.contains_key(id.0)
            &&& after.armed.contains_key(id.0) ==> after.armed[id.0] == timers.armed[id.0]
            &&& after.last.contains_key(id.0) == timers.last.contains_key(id.0)
            &&& after.last.contains_key(id.0) ==> after.last[id.0] == timers.last[id.0]
        }),
    decreases actions.len(),
{
    if actions.len() > 0 {
        lemma_untouched(timers, actions.drop_last(), id);
        assert(!touches(actions.last(), id));
    }
}

/// Working off actions keeps armed timers in step with the generations given
/// out.
proof fn lemma_work_keeps_step(timers: TimerSetView, actions: Seq<FsmActionView>)
    requires
        timers.in_step(),
    ensures
        worked_off(timers, actions).timers.in_step(),
    decreases actions.len(),
{
    if actions.len() > 0 {
        lemma_work_keeps_step(timers, actions.drop_last());
    }
}

/// Whatever happens to it, a router's driver keeps its timers in step.
pub proof fn law_router_driver_stays_in_step(
    driver: SessionDriverView<RouterSessionView>,
    event: FsmEventView,
    id: TimerId,
    kind: TimerKind,
    generation: u64,
)
    requires
        driver.timers.in_step(),
    ensures
        reacts::<RouterSessionFsm>(driver, event).0.timers.in_step(),
        reacts_to_expiry::<RouterSessionFsm>(driver, id, kind, generation).0.timers.in_step(),
{
    lemma_work_keeps_step(driver.timers, driver.fsm.next(event).1);
    let expired = FsmEventView::TimerExpired(id, kind);
    lemma_work_keeps_step(driver.timers.forget(id), driver.fsm.next(expired).1);
}

/// Whatever happens to it, a modem's driver keeps its timers in step.
pub proof fn law_modem_driver_stays_in_step(
    driver: SessionDriverView<ModemSessionView>,
    event: FsmEventView,
    id: TimerId,
    kind: TimerKind,
    generation: u64,
)
    requires
        driver.timers.in_step(),
    ensures
        reacts::<ModemSessionFsm>(driver, event).0.timers.in_step(),
        reacts_to_expiry::<ModemSessionFsm>(driver, id, kind, generation).0.timers.in_step(),
{
    lemma_work_keeps_step(driver.timers, driver.fsm.next(event).1);
    let expired = FsmEventView::TimerExpired(id, kind);
    lemma_work_keeps_step(driver.timers.forget(id), driver.fsm.next(expired).1);
}

/// When the last of the actions starts a timer that the others leave alone, an
/// earlier expiry of it no longer counts, unless the work failed before.
proof fn lemma_restarted_last(
    timers: TimerSetView,
    actions: Seq<FsmActionView>,
    id: TimerId,
    deadline: Duration,
    generation: u64,
)
    requires
        timers.in_step(),
        timers.is_current(id, generation),
        actions.len() > 0,
        actions.last() == (FsmActionView::ResetHeartbeat {
            timer_id: id,
            missed_deadline: deadline,
        }),
        forall|i: int| 0 <= i < actions.len() - 1 ==> !touches(#[trigger] actions[i], id),
        !(worked_off(timers, actions).reaction.outcome is Failed),
    ensures
        !worked_off(timers, actions).timers.is_current(id, generation),
{
    let others = actions.drop_last();
    assert forall|i: int| 0 <= i < others.len() implies !touches(#[trigger] others[i], id) by {
        assert(others[i] == actions[i]);
    }
    lemma_untouched(timers, others, id);
    lemma_work_keeps_step(timers, others);
}

/// A message outruns the deadline: when it arrives before the missed-heartbeat
/// expiry is handled, even if that expiry is already on its way, a router whose
/// session goes on does not react to the expiry any more.
pub proof fn law_router_message_outruns_deadline(
    driver: SessionDriverView<RouterSessionView>,
    message: MessageView,
    d: Duration,
    generation: u64,
)
    requires
        driver.timers.in_step(),
        driver.timers.is_current(TimerId(TIMER_HEARTBEAT_MISSED), generation),
        driver.fsm.state == RouterSessionState::InSession,
        driver.fsm.peer_heartbeat_interval == Some(d),
        session_laws::usable_interval(d),
        reacts::<RouterSessionFsm>(
            driver,
            FsmEventView::RecvMessage(message),
        ).0.fsm.state == RouterSessionState::InSession,
        reacts::<RouterSessionFsm>(driver, FsmEventView::RecvMessage(message)).1.outcome
            is Continue,
    ensures
        ({
            let after = reacts::<RouterSessionFsm>(
                driver,
                FsmEventView::RecvMessage(message),
            ).0;
            reacts_to_expiry::<RouterSessionFsm>(
                after,
                TimerId(TIMER_HEARTBEAT_MISSED),
                TimerKind::HeartbeatMissed,
                generation,
            ) == (after, ReactionView::none())
        }),
{
    let id = TimerId(TIMER_HEARTBEAT_MISSED);
    let actions = driver.fsm.next(FsmEventView::RecvMessage(message)).1;
    session_laws::law_router_message_rearms_deadline(driver.fsm, message, d);
    assert forall|i: int| 0 <= i < actions.len() - 1 implies !touches(#[trigger] actions[i], id) by {
    }
    lemma_restarted_last(
        driver.timers,
        actions,
        id,
        Duration { nanos: (d.nanos * 2) as u128 },
        generation,
    );
}

/// A message outruns the deadline on a modem as well.
pub proof fn law_modem_message_outruns_deadline(
    driver: SessionDriverView<ModemSessionView>,
    message: MessageView,
    d: Duration,
    generation: u64,
)
    requires
        driver.timers.in_step(),
        driver.timers.is_current(TimerId(TIMER_HEARTBEAT_MISSED), generation),
        driver.fsm.state == ModemSessionState::InSession,
        driver.fsm.peer_heartbeat_interval == Some(d),
        session_laws::usable_interval(d),
        reacts::<ModemSessionFsm>(
            driver,
            FsmEventView::RecvMessage(message),
        ).0.fsm.state == ModemSessionState::InSession,
        reacts::<ModemSessionFsm>(driver, FsmEventView::RecvMessage(message)).1.outcome
            is Continue,
    ensures
        ({
            let after = reacts::<ModemSessionFsm>(
                driver,
                FsmEventView::RecvMessage(message),
            ).0;
            reacts_to_expiry::<ModemSessionFsm>(
                after,
                TimerId(TIMER_HEARTBEAT_MISSED),
                TimerKind::HeartbeatMissed,
                generation,
            ) == (after, ReactionView::none())
        }),
{
    let id = TimerId(TIMER_HEARTBEAT_MISSED);
    let actions = driver.fsm.next(FsmEventView::RecvMessage(message)).1;
    session_laws::law_modem_message_rearms_deadline(driver.fsm, message, d);
    assert forall|i: int| 0 <= i < actions.len() - 1 implies !touches(#[trigger] actions[i], id) by {
    }
    lemma_restarted_last(
        driver.timers,
        actions,
        id,
        Duration { nanos: (d.nanos * 2) as u128 },
        generation,
    );
}

/// Whether octets are a whole message.
pub open spec fn is_message(octets: Seq<u8>) -> bool {
    exists|message: MessageView| #[trigger]
        message.wire_form() == Ok::<Seq<u8>, CodecErrorView>(octets)
}

/// A session writes whole messages and nothing else.
pub proof fn law_writes_are_messages(
    timers: TimerSetView,
    actions: Seq<FsmActionView>,
    i: int,
    octets: Seq<u8>,
)
    requires
        0 <= i < worked_off(timers, actions).reaction.effects.len(),
        worked_off(timers, actions).reaction.effects[i] == EffectView::Write(octets),
    ensures
        is_message(octets),
    decreases actions.len(),
{
    if actions.len() > 0 {
        let before = worked_off(timers, actions.drop_last());
        if i < before.reaction.effects.len() {
            law_writes_are_messages(timers, actions.drop_last(), i, octets);
        } else {
            assert(actions.last() is SendMessage);
            let message = actions.last()->SendMessage_0;
            assert(message.wire_form() == Ok::<Seq<u8>, CodecErrorView>(octets));
        }
    }
}

/// Work comes to close a connection exactly when an action asks for it and
/// every message could be written.
proof fn lemma_closes(timers: TimerSetView, actions: Seq<FsmActionView>)
    ensures
        worked_off(timers, actions).reaction.outcome is Close ==> actions.contains(
            FsmActionView::CloseTcp,
        ),
        actions.contains(FsmActionView::CloseTcp) ==> !(worked_off(
            timers,
            actions,
        ).reaction.outcome is Continue),
        !(worked_off(timers, actions).reaction.outcome is Ended),
    decreases actions.len(),
{
    if actions.len() > 0 {
        lemma_closes(timers, actions.drop_last());
        assert(actions =~= actions.drop_last().push(actions.last()));
        if actions.drop_last().contains(FsmActionView::CloseTcp) {
            let k = actions.drop_last().index_of(FsmActionView::CloseTcp);
            assert(actions[k] == FsmActionView::CloseTcp);
        }
        assert(actions.contains(actions.last()));
        if actions.contains(FsmActionView::CloseTcp) && actions.last() != FsmActionView::CloseTcp {
            let k = actions.index_of(FsmActionView::CloseTcp);
            assert(actions.drop_last()[k] == FsmActionView::CloseTcp);
        }
    }
}

/// A router closes a connection only when the session is over.
pub proof fn law_router_closes_at_the_end(
    driver: SessionDriverView<RouterSessionView>,
    event: FsmEventView,
)
    requires
        reacts::<RouterSessionFsm>(driver, event).1.outcome is Close,
    ensures
        reacts::<RouterSessionFsm>(driver, event).0.fsm.state == RouterSessionState::Terminated,
{
    let (after, actions) = driver.fsm.next(event);
    lemma_closes(driver.timers, actions);
    if after.state != RouterSessionState::Terminated {
        assert(forall|i: int| 0 <= i < actions.len() ==> #[trigger] actions[i]
            != FsmActionView::CloseTcp);
    }
}

/// A modem closes a connection only when the session is over.
pub proof fn law_modem_closes_at_the_end(
    driver: SessionDriverView<ModemSessionView>,
    event: FsmEventView,
)
    requires
        reacts::<ModemSessionFsm>(driver, event).1.outcome is Close,
    ensures
        reacts::<ModemSessionFsm>(driver, event).0.fsm.state == ModemSessionState::Terminated,
{
    let (after, actions) = driver.fsm.next(event);
    lemma_closes(driver.timers, actions);
    if after.state != ModemSessionState::Terminated {
        assert(forall|i: int| 0 <= i < actions.len() ==> #[trigger] actions[i]
            != FsmActionView::CloseTcp);
    }
}

/// An effect that stands in the work stays in it.
pub proof fn lemma_effects_stay(timers: TimerSetView, actions: Seq<FsmActionView>, n: int, i: int)
    requires
        0 <= n <= actions.len(),
        0 <= i < worked_off(timers, actions.take(n)).reaction.effects.len(),
    ensures
        i < worked_off(timers, actions).reaction.effects.len(),
        worked_off(timers, actions).reaction.effects[i] == worked_off(
            timers,
            actions.take(n),
        ).reaction.effects[i],
    decreases actions.len() - n,
{
    if n == actions.len() {
        assert(actions.take(n) =~= actions);
    } else {
        assert(actions.take(n + 1).drop_last() =~= actions.take(n));
        lemma_effects_stay(timers, actions, n + 1, i);
    }
}

/// Work in which every message has a wire form does not fail.
proof fn lemma_no_failure(timers: TimerSetView, actions: Seq<FsmActionView>)
    requires
        forall|i: int|
            0 <= i < actions.len() ==> ((#[trigger] actions[i]) matches FsmActionView::SendMessage(
                m,
            ) ==> m.wire_form() is Ok),
    ensures
        !(worked_off(timers, actions).reaction.outcome is Failed),
    decreases actions.len(),
{
    if actions.len() > 0 {
        let front = actions.drop_last();
        assert forall|i: int| 0 <= i < front.len() implies ((#[trigger] front[i]) matches
            FsmActionView::SendMessage(m) ==> m.wire_form() is Ok) by {
            assert(front[i] == actions[i]);
        }
        lemma_no_failure(timers, front);
        assert(actions.last() == actions[actions.len() - 1]);
    }
}

/// A message that is sent is written, as long as nothing before it fails.
proof fn lemma_sent_is_written(
    timers: TimerSetView,
    actions: Seq<FsmActionView>,
    k: int,
    message: MessageView,
    octets: Seq<u8>,
)
    requires
        0 <= k < actions.len(),
        actions[k] == FsmActionView::SendMessage(message),
        message.wire_form() == Ok::<Seq<u8>, CodecErrorView>(octets),
        forall|i: int|
            0 <= i < k ==> ((#[trigger] actions[i]) matches FsmActionView::SendMessage(m)
                ==> m.wire_form() is Ok),
    ensures
        worked_off(timers, actions).reaction.effects.contains(EffectView::Write(octets)),
{
    let front = actions.take(k);
    assert forall|i: int| 0 <= i < front.len() implies ((#[trigger] front[i]) matches
        FsmActionView::SendMessage(m) ==> m.wire_form() is Ok) by {
        assert(front[i] == actions[i]);
    }
    lemma_no_failure(timers, front);
    let upto = actions.take(k + 1);
    assert(upto.drop_last() =~= front);
    let at = worked_off(timers, front).reaction.effects.len() as int;
    assert(worked_off(timers, upto).reaction.effects[at] == EffectView::Write(octets));
    lemma_effects_stay(timers, actions, k + 1, at);
}

/// What is emitted last is the last effect, as long as nothing before it fails.
proof fn lemma_emitted_last(
    timers: TimerSetView,
    actions: Seq<FsmActionView>,
    event: EmittedEventView,
)
    requires
        actions.len() > 0,
        actions.last() == FsmActionView::Emit(event),
        forall|i: int|
            0 <= i < actions.len() ==> ((#[trigger] actions[i]) matches FsmActionView::SendMessage(
                m,
            ) ==> m.wire_form() is Ok),
    ensures
        worked_off(timers, actions).reaction.effects.len() > 0,
        worked_off(timers, actions).reaction.effects.last() == EffectView::Emit(event),
{
    let front = actions.drop_last();
    assert forall|i: int| 0 <= i < front.len() implies ((#[trigger] front[i]) matches
        FsmActionView::SendMessage(m) ==> m.wire_form() is Ok) by {
        assert(front[i] == actions[i]);
    }
    lemma_no_failure(timers, front);
}

/// A router's driver writes the initialization when the connection is there.
proof fn lemma_router_starts(config: SessionConfigView, init: Seq<u8>)
    requires
        session_initialization(config).wire_form() == Ok::<Seq<u8>, CodecErrorView>(init),
    ensures
        worked_off(
            TimerSetView::none(),
            RouterSessionView::fresh(config).next(FsmEventView::TcpConnected).1,
        ).reaction.effects.contains(EffectView::Write(init)),
{
    let first = RouterSessionView::fresh(config).next(FsmEventView::TcpConnected).1;
    assert(first[0] == FsmActionView::SendMessage(session_initialization(config)));
    lemma_sent_is_written(TimerSetView::none(), first, 0, session_initialization(config), init);
}

/// A modem's driver writes the response when it is initialized, and reports the
/// session up.
proof fn lemma_modem_answers(
    timers: TimerSetView,
    modem: ModemSessionView,
    sent: MessageView,
    response: Seq<u8>,
)
    requires
        modem.state == ModemSessionState::AwaitingSessionInit,
        sent.message_type == MessageType(MessageType::SESSION_INITIALIZATION),
        session_initialization_response(modem.config).wire_form() == Ok::<Seq<u8>, CodecErrorView>(
            response,
        ),
    ensures
        ({
            let actions = modem.next(FsmEventView::RecvMessage(sent)).1;
            let effects = worked_off(timers, actions).reaction.effects;
            &&& effects.contains(EffectView::Write(response))
            &&& actions.last() matches FsmActionView::Emit(event) && effects.last()
                == EffectView::Emit(event)
        }),
{
    let actions = modem.next(FsmEventView::RecvMessage(sent)).1;
    let answer = session_initialization_response(modem.config);
    assert(actions[1] == FsmActionView::SendMessage(answer));
    lemma_sent_is_written(timers, actions, 1, answer, response);
    lemma_emitted_last(timers, actions, actions.last()->Emit_0);
}

/// A router's driver reports the session up when the answer is there.
proof fn lemma_router_finishes(timers: TimerSetView, router: RouterSessionView, answer: MessageView)
    requires
        router.state == RouterSessionState::SessionInitPending,
        router.next(FsmEventView::RecvMessage(answer)).0.state == RouterSessionState::InSession,
    ensures
        ({
            let actions = router.next(FsmEventView::RecvMessage(answer)).1;
            actions.last() matches FsmActionView::Emit(event) && worked_off(
                timers,
                actions,
            ).reaction.effects.last() == EffectView::Emit(event)
        }),
{
    let actions = router.next(FsmEventView::RecvMessage(answer)).1;
    lemma_emitted_last(timers, actions, actions.last()->Emit_0);
}

/// A session comes up over the wire: what a router's driver writes first is
/// read by a modem as the router's initialization, what the modem's driver
/// writes in answer is read by the router as the modem's, and with that both
/// report the session up, with the extensions of the other. It takes
/// configurations whose initializations fit into a message.
pub proof fn law_session_comes_up_over_the_wire(
    router_config: SessionConfigView,
    modem_config: SessionConfigView,
    init: Seq<u8>,
    response: Seq<u8>,
)
    requires
        session_initialization(router_config).wire_form() == Ok::<Seq<u8>, CodecErrorView>(init),
        session_initialization_response(modem_config).wire_form() == Ok::<
            Seq<u8>,
            CodecErrorView,
        >(response),
    ensures
        ({
            let sent = MessageView::read(init)->Ok_0;
            let answer = MessageView::read(response)->Ok_0;
            let router = SessionDriverView {
                fsm: RouterSessionView::fresh(router_config),
                timers: TimerSetView::none(),
                commands_open: true,
            };
            let modem = SessionDriverView {
                fsm: ModemSessionView::fresh(modem_config),
                timers: TimerSetView::none(),
                commands_open: true,
            };
            let (router, first) = reacts::<RouterSessionFsm>(router, FsmEventView::TcpConnected);
            let (modem, _) = reacts::<ModemSessionFsm>(modem, FsmEventView::TcpAccepted);
            let (modem, second) = reacts::<ModemSessionFsm>(
                modem,
                FsmEventView::RecvMessage(sent),
            );
            let (router, third) = reacts::<RouterSessionFsm>(
                router,
                FsmEventView::RecvMessage(answer),
            );
            &&& MessageView::read(init) is Ok
            &&& MessageView::read(response) is Ok
            &&& first.effects.contains(EffectView::Write(init))
            &&& second.effects.contains(EffectView::Write(response))
            &&& router.fsm.state == RouterSessionState::InSession
            &&& modem.fsm.state == ModemSessionState::InSession
            &&& third.effects.last() == EffectView::Emit(
                EmittedEventView::SessionUp {
                    peer_extensions: modem_config.advertised_extensions,
                },
            )
            &&& second.effects.last() == EffectView::Emit(
                EmittedEventView::SessionUp {
                    peer_extensions: router_config.advertised_extensions,
                },
            )
        }),
{
    message_laws::law_initialization_survives_the_wire(router_config);
    message_laws::law_initialization_survives_the_wire(modem_config);
    session_laws::law_handshake(router_config, modem_config);
    let sent = session_initialization(router_config);
    let answer = session_initialization_response(modem_config);
    let none = TimerSetView::none();
    let (router, first) = RouterSessionView::fresh(router_config).next(FsmEventView::TcpConnected);
    let (modem, waits) = ModemSessionView::fresh(modem_config).next(FsmEventView::TcpAccepted);
    lemma_router_starts(router_config, init);
    lemma_modem_answers(worked_off(none, waits).timers, modem, sent, response);
    lemma_router_finishes(worked_off(none, first).timers, router, answer);
}

} // verus!
