//! How a session task reacts.
//!
//! The task owns the connection, the sleeping timers and the channels. What to
//! do with them it asks the driver: every message, command, expiry and end of
//! stream goes in, and what comes out is a list of effects to perform in order
//! and whether the session goes on.

use vstd::prelude::*;
use bytes::BytesMut;
use crate::daemon::config::TimersConfig;
use crate::daemon::runtime::{SessionCommand, SessionCommandView};
use crate::daemon::timer_set::{TimerSet, TimerSetView};
use crate::fsm::events;
use crate::fsm::events::{
    EmittedEvent, EmittedEventView, FsmAction, FsmActionView, FsmEvent, FsmEventView,
};
use crate::fsm::session_common::{SessionConfig, SessionConfigView};
use crate::fsm::session_modem::{ModemSessionFsm, ModemSessionView};
use crate::fsm::session_router::{RouterSessionFsm, RouterSessionView};
use crate::fsm::timers::{TimerId, TimerKind};
use crate::proto::buffer;
use crate::proto::duration::Duration;
use crate::proto::error::{CodecError, CodecErrorView};
use crate::proto::message::Message;
use crate::proto::status::StatusCode;

verus! {

/// Session configuration out of a daemon's timers and description. It announces
/// no extensions.
pub fn session_config_from_timers(timers: &TimersConfig, peer_description: String) -> (r:
    SessionConfig)
    ensures
        r@ == (SessionConfigView {
            peer_description: peer_description@,
            heartbeat_interval_ms: timers.heartbeat_interval_ms,
            session_init_timeout: SessionConfigView::of_millis(
                timers.session_init_timeout_ms as nat,
            ),
            termination_timeout: SessionConfigView::of_millis(
                timers.termination_timeout_ms as nat,
            ),
            advertised_extensions: Seq::empty(),
        }),
{
    SessionConfig {
        peer_description,
        heartbeat_interval_ms: timers.heartbeat_interval_ms,
        session_init_timeout: Duration::from_millis(timers.session_init_timeout_ms as u64),
        termination_timeout: Duration::from_millis(timers.termination_timeout_ms as u64),
        advertised_extensions: Vec::new(),
    }
}

/// A session state machine, of either side.
pub trait SessionFsm: View + Sized {
    /// The state after an event, and the actions that the event calls for.
    spec fn transition(state: Self::V, event: FsmEventView) -> (Self::V, Seq<FsmActionView>);

    fn step(&mut self, event: FsmEvent) -> (r: Vec<FsmAction>)
        ensures
            (final(self)@, events::action_views(r@)) == Self::transition(old(self)@, event@),
    ;
}

impl SessionFsm for RouterSessionFsm {
    open spec fn transition(state: RouterSessionView, event: FsmEventView) -> (
        RouterSessionView,
        Seq<FsmActionView>,
    ) {
        state.next(event)
    }

    fn step(&mut self, event: FsmEvent) -> (r: Vec<FsmAction>) {
        RouterSessionFsm::step(self, event)
    }
}

impl SessionFsm for ModemSessionFsm {
    open spec fn transition(state: ModemSessionView, event: FsmEventView) -> (
        ModemSessionView,
        Seq<FsmActionView>,
    ) {
        state.next(event)
    }

    fn step(&mut self, event: FsmEvent) -> (r: Vec<FsmAction>) {
        ModemSessionFsm::step(self, event)
    }
}

/// What the session task is to do.
#[derive(Debug)]
pub enum Effect {
    /// Write these octets to the peer.
    Write(BytesMut),
    /// Start a sleeper in the place of the one at `id`, if there is one. Its
    /// expiries carry the generation.
    StartTimer {
        id: TimerId,
        kind: TimerKind,
        duration: Duration,
        periodic: bool,
        generation: u64,
    },
    /// Stop the sleeper at this handle, if there is one.
    StopTimer(TimerId),
    /// Tell the application.
    Emit(EmittedEvent),
}

#[verifier::ext_equal]
pub enum EffectView {
    Write(Seq<u8>),
    StartTimer {
        id: TimerId,
        kind: TimerKind,
        duration: Duration,
        periodic: bool,
        generation: u64,
    },
    StopTimer(TimerId),
    Emit(EmittedEventView),
}

impl View for Effect {
    type V = EffectView;

    open spec fn view(&self) -> EffectView {
        match *self {
            Effect::Write(octets) => EffectView::Write(buffer::buffer_content(octets)),
            Effect::StartTimer { id, kind, duration, periodic, generation } => {
                EffectView::StartTimer { id, kind, duration, periodic, generation }
            },
            Effect::StopTimer(id) => EffectView::StopTimer(id),
            Effect::Emit(event) => EffectView::Emit(event@),
        }
    }
}

/// What a list of effects says.
pub open spec fn effect_views(effects: Seq<Effect>) -> Seq<EffectView> {
    Seq::new(effects.len(), |i: int| effects[i]@)
}

/// How a session goes on once the effects are performed.
#[derive(Debug)]
pub enum Outcome {
    Continue,
    /// Close the connection; the session is over.
    Close,
    /// The session is over and there is nothing to close.
    Ended,
    /// A message could not be put on the wire; the session is over.
    Failed(CodecError),
}

#[verifier::ext_equal]
pub enum OutcomeView {
    Continue,
    Close,
    Ended,
    Failed(CodecErrorView),
}

impl View for Outcome {
    type V = OutcomeView;

    open spec fn view(&self) -> OutcomeView {
        match *self {
            Outcome::Continue => OutcomeView::Continue,
            Outcome::Close => OutcomeView::Close,
            Outcome::Ended => OutcomeView::Ended,
            Outcome::Failed(e) => OutcomeView::Failed(e@),
        }
    }
}

/// What an event leads to.
#[derive(Debug)]
pub struct Reaction {
    /// To be performed in order.
    pub effects: Vec<Effect>,
    pub outcome: Outcome,
}

#[verifier::ext_equal]
pub struct ReactionView {
    pub effects: Seq<EffectView>,
    pub outcome: OutcomeView,
}

impl View for Reaction {
    type V = ReactionView;

    open spec fn view(&self) -> ReactionView {
        ReactionView { effects: effect_views(self.effects@), outcome: self.outcome@ }
    }
}

impl ReactionView {
    /// Nothing to do.
    pub open spec fn none() -> Self {
        ReactionView { effects: Seq::empty(), outcome: OutcomeView::Continue }
    }

    /// The same at the end of the stream, where no session goes on.
    pub open spec fn at_end(self) -> Self {
        ReactionView {
            outcome: if self.outcome is Continue {
                OutcomeView::Ended
            } else {
                self.outcome
            },
            ..self
        }
    }
}

/// Timers, and the reaction so far.
#[verifier::ext_equal]
pub struct Progress {
    pub timers: TimerSetView,
    pub reaction: ReactionView,
}

impl Progress {
    pub open spec fn begin(timers: TimerSetView) -> Self {
        Progress { timers, reaction: ReactionView::none() }
    }

    /// With one more effect.
    pub open spec fn with(self, effect: EffectView) -> Self {
        Progress {
            reaction: ReactionView { effects: self.reaction.effects.push(effect), ..self.reaction },
            ..self
        }
    }

    pub open spec fn ending(self, outcome: OutcomeView) -> Self {
        Progress { reaction: ReactionView { outcome, ..self.reaction }, ..self }
    }

    /// With a timer started.
    pub open spec fn starting(
        self,
        id: TimerId,
        kind: TimerKind,
        duration: Duration,
        periodic: bool,
    ) -> Self {
        Progress { timers: self.timers.started(id, periodic), ..self }.with(
            EffectView::StartTimer {
                id,
                kind,
                duration,
                periodic,
                generation: self.timers.upcoming(id),
            },
        )
    }

    /// What an action adds. After a message that has no wire form nothing more
    /// is done. Signals do not belong to a session and are dropped.
    pub open spec fn then_do(self, action: FsmActionView) -> Self {
        if self.reaction.outcome is Failed {
            self
        } else {
            match action {
                FsmActionView::SendMessage(message) => match message.wire_form() {
                    Ok(octets) => self.with(EffectView::Write(octets)),
                    Err(e) => self.ending(OutcomeView::Failed(e)),
                },
                FsmActionView::SendSignal { .. } => self,
                FsmActionView::StartTimer { id, kind, duration, periodic } => self.starting(
                    id,
                    kind,
                    duration,
                    periodic,
                ),
                FsmActionView::CancelTimer(id) => Progress {
                    timers: self.timers.cancel(id),
                    ..self
                }.with(EffectView::StopTimer(id)),
                FsmActionView::ResetHeartbeat { timer_id, missed_deadline } => self.starting(
                    timer_id,
                    TimerKind::HeartbeatMissed,
                    missed_deadline,
                    false,
                ),
                FsmActionView::CloseTcp => self.ending(OutcomeView::Close),
                FsmActionView::Emit(event) => self.with(EffectView::Emit(event)),
            }
        }
    }
}

/// Timers and reaction after a list of actions, worked off in order.
pub open spec fn worked_off(timers: TimerSetView, actions: Seq<FsmActionView>) -> Progress
    decreases actions.len(),
{
    if actions.len() == 0 {
        Progress::begin(timers)
    } else {
        worked_off(timers, actions.drop_last()).then_do(actions.last())
    }
}

fn push_effect(effects: &mut Vec<Effect>, effect: Effect)
    ensures
        effect_views(final(effects)@) == effect_views(old(effects)@).push(effect@),
{
    let ghost before = effect_views(effects@);
    effects.push(effect);
    assert(effect_views(effects@) =~= before.push(effect@));
}

/// Work off actions in order: turn them into effects, and keep the timers.
fn work_off(timers: &mut TimerSet, actions: Vec<FsmAction>) -> (r: Reaction)
    ensures
        final(timers)@ == worked_off(old(timers)@, events::action_views(actions@)).timers,
        r@ == worked_off(old(timers)@, events::action_views(actions@)).reaction,
{
    let ghost start = timers@;
    let ghost all = events::action_views(actions@);
    let mut effects: Vec<Effect> = Vec::new();
    let mut close = false;
    assert(effect_views(effects@) =~= Seq::<EffectView>::empty());
    for action in iter: actions.into_iter()
        invariant
            iter.seq() == actions@,
            start == old(timers)@,
            all == events::action_views(actions@),
            ({
                let progress = worked_off(start, all.take(iter.index() as int));
                &&& timers@ == progress.timers
                &&& effect_views(effects@) == progress.reaction.effects
                &&& progress.reaction.outcome == if close {
                    OutcomeView::Close
                } else {
                    OutcomeView::Continue
                }
            }),
    {
        proof {
            let i = iter.index() as int;
            assert(action == actions@[i]);
            assert(all.take(i + 1).drop_last() =~= all.take(i));
            assert(all.take(i + 1).last() == action@);
        }
        match action {
            FsmAction::SendMessage(message) => {
                match message.encode() {
                    Ok(octets) => {
                        push_effect(&mut effects, Effect::Write(octets));
                    },
                    Err(e) => {
                        proof {
                            lemma_failure_stays(start, all, iter.index() as int + 1);
                        }
                        return Reaction { effects, outcome: Outcome::Failed(e) };
                    },
                }
            },
            FsmAction::SendSignal { .. } => {},
            FsmAction::StartTimer { id, kind, duration, periodic } => {
                let generation: u64 = timers.start(id, periodic);
                push_effect(
                    &mut effects,
                    Effect::StartTimer { id, kind, duration, periodic, generation },
                );
            },
            FsmAction::CancelTimer(id) => {
                timers.cancel(id);
                push_effect(&mut effects, Effect::StopTimer(id));
            },
            FsmAction::ResetHeartbeat { timer_id, missed_deadline } => {
                let generation: u64 = timers.start(timer_id, false);
                push_effect(
                    &mut effects,
                    Effect::StartTimer {
                        id: timer_id,
                        kind: TimerKind::HeartbeatMissed,
                        duration: missed_deadline,
                        periodic: false,
                        generation,
                    },
                );
            },
            FsmAction::CloseTcp => {
                close = true;
            },
            FsmAction::Emit(event) => {
                push_effect(&mut effects, Effect::Emit(event));
            },
        }
    }
    assert(all.take(all.len() as int) =~= all);
    Reaction {
        effects,
        outcome: if close {
            Outcome::Close
        } else {
            Outcome::Continue
        },
    }
}

/// Once a message had no wire form, the actions behind it change nothing.
proof fn lemma_failure_stays(timers: TimerSetView, actions: Seq<FsmActionView>, n: int)
    requires
        0 <= n <= actions.len(),
        worked_off(timers, actions.take(n)).reaction.outcome is Failed,
    ensures
        worked_off(timers, actions) == worked_off(timers, actions.take(n)),
    decreases actions.len() - n,
{
    if n == actions.len() {
        assert(actions.take(n) =~= actions);
    } else {
        assert(actions.take(n + 1).drop_last() =~= actions.take(n));
        lemma_failure_stays(timers, actions, n + 1);
    }
}

/// What a command is to the state machine. A daemon that drops its end of the
/// command channel asks for an orderly shutdown.
pub open spec fn event_of(command: Option<SessionCommandView>) -> FsmEventView {
    match command {
        Some(SessionCommandView::Shutdown { reason }) => FsmEventView::AppShutdown { reason },
        Some(SessionCommandView::AddDestination { mac, metrics, addrs }) => {
            FsmEventView::AppAddDestination { mac, metrics, addrs }
        },
        Some(SessionCommandView::UpdateDestination { mac, metrics }) => {
            FsmEventView::AppUpdateMetrics { mac, metrics }
        },
        Some(SessionCommandView::DropDestination { mac, reason }) => {
            FsmEventView::AppDropDestination { mac, reason }
        },
        None => FsmEventView::AppShutdown { reason: StatusCode(StatusCode::SHUTTING_DOWN) },
    }
}

/// An optional command.
pub open spec fn command_view(command: Option<SessionCommand>) -> Option<SessionCommandView> {
    match command {
        Some(c) => Some(c@),
        None => None,
    }
}

fn command_event(command: Option<SessionCommand>) -> (r: FsmEvent)
    ensures
        r@ == event_of(command_view(command)),
{
    match command {
        Some(SessionCommand::Shutdown { reason }) => FsmEvent::AppShutdown { reason },
        Some(SessionCommand::AddDestination { mac, metrics, addrs }) => {
            FsmEvent::AppAddDestination { mac, metrics, addrs }
        },
        Some(SessionCommand::UpdateDestination { mac, metrics }) => FsmEvent::AppUpdateMetrics {
            mac,
            metrics,
        },
        Some(SessionCommand::DropDestination { mac, reason }) => FsmEvent::AppDropDestination {
            mac,
            reason,
        },
        None => FsmEvent::AppShutdown { reason: StatusCode(StatusCode::SHUTTING_DOWN) },
    }
}

/// Drives one session: its state machine, and which of its timers count.
#[derive(Debug)]
pub struct SessionDriver<F> {
    fsm: F,
    timers: TimerSet,
    commands_open: bool,
}

#[verifier::ext_equal]
pub struct SessionDriverView<S> {
    pub fsm: S,
    pub timers: TimerSetView,
    /// Whether commands can still come.
    pub commands_open: bool,
}

impl<F: SessionFsm> View for SessionDriver<F> {
    type V = SessionDriverView<F::V>;

    closed spec fn view(&self) -> SessionDriverView<F::V> {
        SessionDriverView {
            fsm: self.fsm@,
            timers: self.timers@,
            commands_open: self.commands_open,
        }
    }
}

/// What an event does to a driver, and the reaction to it.
pub open spec fn reacts<F: SessionFsm>(
    driver: SessionDriverView<F::V>,
    event: FsmEventView,
) -> (SessionDriverView<F::V>, ReactionView) {
    let (fsm, actions) = F::transition(driver.fsm, event);
    let progress = worked_off(driver.timers, actions);
    (SessionDriverView { fsm, timers: progress.timers, ..driver }, progress.reaction)
}

/// What an expiry does: it counts if its generation is current, and then a
/// single shot is over before the state machine hears of it.
pub open spec fn reacts_to_expiry<F: SessionFsm>(
    driver: SessionDriverView<F::V>,
    id: TimerId,
    kind: TimerKind,
    generation: u64,
) -> (SessionDriverView<F::V>, ReactionView) {
    if driver.timers.is_current(id, generation) {
        reacts::<F>(
            SessionDriverView { timers: driver.timers.forget(id), ..driver },
            FsmEventView::TimerExpired(id, kind),
        )
    } else {
        (driver, ReactionView::none())
    }
}

impl<F: SessionFsm> SessionDriver<F> {
    pub fn new(fsm: F) -> (r: Self)
        ensures
            r@ == (SessionDriverView {
                fsm: fsm@,
                timers: TimerSetView::none(),
                commands_open: true,
            }),
    {
        SessionDriver { fsm, timers: TimerSet::default(), commands_open: true }
    }

    /// The state machine.
    pub fn fsm(&self) -> (r: &F)
        ensures
            r@ == self@.fsm,
    {
        &self.fsm
    }

    /// Whether commands are still to be waited for.
    pub fn commands_open(&self) -> (r: bool)
        ensures
            r == self@.commands_open,
    {
        self.commands_open
    }

    /// React to an event. A session begins with `TcpConnected` on the router
    /// and `TcpAccepted` on the modem.
    pub fn react(&mut self, event: FsmEvent) -> (r: Reaction)
        ensures
            (final(self)@, r@) == reacts::<F>(old(self)@, event@),
    {
        let actions = self.fsm.step(event);
        work_off(&mut self.timers, actions)
    }

    /// React to a message of the peer.
    pub fn on_message(&mut self, message: Message) -> (r: Reaction)
        ensures
            (final(self)@, r@) == reacts::<F>(old(self)@, FsmEventView::RecvMessage(message@)),
    {
        self.react(FsmEvent::RecvMessage(message))
    }

    /// React to the end of the stream. The session is over.
    pub fn on_eof(&mut self) -> (r: Reaction)
        ensures
            (final(self)@, r@) == ({
                let (after, reaction) = reacts::<F>(old(self)@, FsmEventView::TcpClosed);
                (after, reaction.at_end())
            }),
    {
        let reaction = self.react(FsmEvent::TcpClosed);
        Reaction {
            effects: reaction.effects,
            outcome: match reaction.outcome {
                Outcome::Continue => Outcome::Ended,
                outcome => outcome,
            },
        }
    }

    /// React to a command, or to the end of the commands, after which no more
    /// are to be waited for.
    pub fn on_command(&mut self, command: Option<SessionCommand>) -> (r: Reaction)
        ensures
            (final(self)@, r@) == reacts::<F>(
                SessionDriverView {
                    commands_open: old(self)@.commands_open && command is Some,
                    ..old(self)@
                },
                event_of(command_view(command)),
            ),
    {
        if command.is_none() {
            self.commands_open = false;
        }
        self.react(command_event(command))
    }

    /// React to the expiry of a timer. One that was cancelled or armed anew
    /// since is ignored.
    pub fn on_timer(&mut self, id: TimerId, kind: TimerKind, generation: u64) -> (r: Reaction)
        ensures
            (final(self)@, r@) == reacts_to_expiry::<F>(old(self)@, id, kind, generation),
    {
        if !self.timers.is_current_generation(id, generation) {
            let r = Reaction { effects: Vec::new(), outcome: Outcome::Continue };
            assert(r@ =~= ReactionView::none());
            return r;
        }
        self.timers.forget(id);
        self.react(FsmEvent::TimerExpired(id, kind))
    }
}

} // verus!
