//! How a discovery task reacts.
//!
//! The task owns the discovery socket and the sleeping timers, and asks the
//! driver what to do with them.

use vstd::prelude::*;
use bytes::BytesMut;
use crate::daemon::events as daemon_events;
use crate::daemon::events::{DaemonEvent, DaemonEventView};
use crate::daemon::timer_set::{TimerSet, TimerSetView};
use crate::fsm::discovery_modem::{ModemDiscoveryFsm, ModemDiscoveryView};
use crate::fsm::discovery_router::{RouterDiscoveryFsm, RouterDiscoveryView};
use crate::fsm::events;
use crate::fsm::events::{FsmAction, FsmActionView, FsmEvent, FsmEventView, SendTarget};
use crate::fsm::timers::{TimerId, TimerKind};
use crate::net::framed::SignalCodec;
use crate::net::gtsm;
use crate::proto::addr::SocketAddr;
use crate::proto::buffer;
use crate::proto::duration::Duration;
use crate::proto::error::{CodecError, CodecErrorView};
use crate::proto::signal::SignalView;
use crate::proto::status::StatusCode;

verus! {

/// A discovery state machine, of either side.
pub trait DiscoveryFsm: View + Sized {
    /// The state after an event, and the actions that the event calls for.
    spec fn transition(state: Self::V, event: FsmEventView) -> (Self::V, Seq<FsmActionView>);

    fn step(&mut self, event: FsmEvent) -> (r: Vec<FsmAction>)
        ensures
            (final(self)@, events::action_views(r@)) == Self::transition(old(self)@, event@),
    ;
}

impl DiscoveryFsm for RouterDiscoveryFsm {
    open spec fn transition(state: RouterDiscoveryView, event: FsmEventView) -> (
        RouterDiscoveryView,
        Seq<FsmActionView>,
    ) {
        state.next(event)
    }

    fn step(&mut self, event: FsmEvent) -> (r: Vec<FsmAction>) {
        RouterDiscoveryFsm::step(self, event)
    }
}

impl DiscoveryFsm for ModemDiscoveryFsm {
    open spec fn transition(state: ModemDiscoveryView, event: FsmEventView) -> (
        ModemDiscoveryView,
        Seq<FsmActionView>,
    ) {
        state.next(event)
    }

    fn step(&mut self, event: FsmEvent) -> (r: Vec<FsmAction>) {
        ModemDiscoveryFsm::step(self, event)
    }
}

/// What the discovery task is to do.
#[derive(Debug)]
pub enum DiscoveryEffect {
    /// Send a datagram to the multicast group.
    SendToGroup(BytesMut),
    /// Send a datagram to one endpoint.
    SendTo { octets: BytesMut, dest: SocketAddr },
    /// A signal has no wire form and was not sent.
    Unsendable(CodecError),
    /// Start a sleeper in the place of the one at `id`, if there is one. Its
    /// expiries carry the generation.
    StartTimer {
        id: TimerId,
        kind: TimerKind,
        duration: Duration,
        periodic: bool,
        generation: u64,
    },
    /// Stop the sleeper at this handle, if there is one.
    StopTimer(TimerId),
    /// Tell subscribers.
    Publish(DaemonEvent),
}

#[verifier::ext_equal]
pub enum DiscoveryEffectView {
    SendToGroup(Seq<u8>),
    SendTo { octets: Seq<u8>, dest: SocketAddr },
    Unsendable(CodecErrorView),
    StartTimer {
        id: TimerId,
        kind: TimerKind,
        duration: Duration,
        periodic: bool,
        generation: u64,
    },
    StopTimer(TimerId),
    Publish(DaemonEventView),
}

impl View for DiscoveryEffect {
    type V = DiscoveryEffectView;

    open spec fn view(&self) -> DiscoveryEffectView {
        match *self {
            DiscoveryEffect::SendToGroup(octets) => DiscoveryEffectView::SendToGroup(
                buffer::buffer_content(octets),
            ),
            DiscoveryEffect::SendTo { octets, dest } => DiscoveryEffectView::SendTo {
                octets: buffer::buffer_content(octets),
                dest,
            },
            DiscoveryEffect::Unsendable(e) => DiscoveryEffectView::Unsendable(e@),
            DiscoveryEffect::StartTimer { id, kind, duration, periodic, generation } => {
                DiscoveryEffectView::StartTimer { id, kind, duration, periodic, generation }
            },
            DiscoveryEffect::StopTimer(id) => DiscoveryEffectView::StopTimer(id),
            DiscoveryEffect::Publish(event) => DiscoveryEffectView::Publish(event@),
        }
    }
}

/// What a list of effects says.
pub open spec fn effect_views(effects: Seq<DiscoveryEffect>) -> Seq<DiscoveryEffectView> {
    Seq::new(effects.len(), |i: int| effects[i]@)
}

/// Timers, and the effects so far.
#[verifier::ext_equal]
pub struct DiscoveryProgress {
    pub timers: TimerSetView,
    pub effects: Seq<DiscoveryEffectView>,
}

impl DiscoveryProgress {
    pub open spec fn begin(timers: TimerSetView) -> Self {
        DiscoveryProgress { timers, effects: Seq::empty() }
    }

    /// With one more effect.
    pub open spec fn with(self, effect: DiscoveryEffectView) -> Self {
        DiscoveryProgress { effects: self.effects.push(effect), ..self }
    }

    /// What an action adds. What belongs to sessions is dropped.
    pub open spec fn then_do(self, action: FsmActionView) -> Self {
        match action {
            FsmActionView::SendSignal { signal, target } => match signal.wire_form() {
                Ok(octets) => match target {
                    SendTarget::DiscoveryGroup => self.with(
                        DiscoveryEffectView::SendToGroup(octets),
                    ),
                    SendTarget::Unicast(dest) => self.with(
                        DiscoveryEffectView::SendTo { octets, dest },
                    ),
                },
                Err(e) => self.with(DiscoveryEffectView::Unsendable(e)),
            },
            FsmActionView::StartTimer { id, kind, duration, periodic } => DiscoveryProgress {
                timers: self.timers.started(id, periodic),
                ..self
            }.with(
                DiscoveryEffectView::StartTimer {
                    id,
                    kind,
                    duration,
                    periodic,
                    generation: self.timers.upcoming(id),
                },
            ),
            FsmActionView::CancelTimer(id) => DiscoveryProgress {
                timers: self.timers.cancel(id),
                ..self
            }.with(DiscoveryEffectView::StopTimer(id)),
            FsmActionView::Emit(event) => match daemon_events::discovery_event(event) {
                Some(e) => self.with(DiscoveryEffectView::Publish(e)),
                None => self,
            },
            FsmActionView::ResetHeartbeat { .. } => self,
            FsmActionView::SendMessage(_) => self,
            FsmActionView::CloseTcp => self,
        }
    }
}

/// Timers and effects after a list of actions, worked off in order.
pub open spec fn worked_off(timers: TimerSetView, actions: Seq<FsmActionView>) -> DiscoveryProgress
    decreases actions.len(),
{
    if actions.len() == 0 {
        DiscoveryProgress::begin(timers)
    } else {
        worked_off(timers, actions.drop_last()).then_do(actions.last())
    }
}

fn push_effect(effects: &mut Vec<DiscoveryEffect>, effect: DiscoveryEffect)
    ensures
        effect_views(final(effects)@) == effect_views(old(effects)@).push(effect@),
{
    let ghost before = effect_views(effects@);
    effects.push(effect);
    assert(effect_views(effects@) =~= before.push(effect@));
}

/// Work off actions in order: turn them into effects, and keep the timers.
fn work_off(timers: &mut TimerSet, actions: Vec<FsmAction>) -> (r: Vec<DiscoveryEffect>)
    ensures
        final(timers)@ == worked_off(old(timers)@, events::action_views(actions@)).timers,
        effect_views(r@) == worked_off(old(timers)@, events::action_views(actions@)).effects,
{
    let ghost start = timers@;
    let ghost all = events::action_views(actions@);
    let mut effects: Vec<DiscoveryEffect> = Vec::new();
    assert(effect_views(effects@) =~= Seq::<DiscoveryEffectView>::empty());
    for action in iter: actions.into_iter()
        invariant
            iter.seq() == actions@,
            start == old(timers)@,
            all == events::action_views(actions@),
            timers@ == worked_off(start, all.take(iter.index() as int)).timers,
            effect_views(effects@) == worked_off(start, all.take(iter.index() as int)).effects,
    {
        proof {
            let i = iter.index() as int;
            assert(action == actions@[i]);
            assert(all.take(i + 1).drop_last() =~= all.take(i));
            assert(all.take(i + 1).last() == action@);
        }
        match action {
            FsmAction::SendSignal { signal, target } => match SignalCodec.encode_datagram(&signal) {
                Ok(octets) => match target {
                    SendTarget::DiscoveryGroup => {
                        push_effect(&mut effects, DiscoveryEffect::SendToGroup(octets));
                    },
                    SendTarget::Unicast(dest) => {
                        push_effect(&mut effects, DiscoveryEffect::SendTo { octets, dest });
                    },
                },
                Err(e) => {
                    push_effect(&mut effects, DiscoveryEffect::Unsendable(e));
                },
            },
            FsmAction::StartTimer { id, kind, duration, periodic } => {
                let generation: u64 = timers.start(id, periodic);
                push_effect(
                    &mut effects,
                    DiscoveryEffect::StartTimer { id, kind, duration, periodic, generation },
                );
            },
            FsmAction::CancelTimer(id) => {
                timers.cancel(id);
                push_effect(&mut effects, DiscoveryEffect::StopTimer(id));
            },
            FsmAction::Emit(event) => {
                if let Some(e) = daemon_events::translate(event) {
                    push_effect(&mut effects, DiscoveryEffect::Publish(e));
                }
            },
            FsmAction::ResetHeartbeat { .. } => {},
            FsmAction::SendMessage(_) => {},
            FsmAction::CloseTcp => {},
        }
    }
    assert(all.take(all.len() as int) =~= all);
    effects
}

/// Drives discovery on one side: its state machine, and which of its timers
/// count.
#[derive(Debug)]
pub struct DiscoveryDriver<F> {
    fsm: F,
    timers: TimerSet,
}

#[verifier::ext_equal]
pub struct DiscoveryDriverView<S> {
    pub fsm: S,
    pub timers: TimerSetView,
}

impl<F: DiscoveryFsm> View for DiscoveryDriver<F> {
    type V = DiscoveryDriverView<F::V>;

    closed spec fn view(&self) -> DiscoveryDriverView<F::V> {
        DiscoveryDriverView { fsm: self.fsm@, timers: self.timers@ }
    }
}

/// What an event does to a driver, and the effects of it.
pub open spec fn reacts<F: DiscoveryFsm>(
    driver: DiscoveryDriverView<F::V>,
    event: FsmEventView,
) -> (DiscoveryDriverView<F::V>, Seq<DiscoveryEffectView>) {
    let (fsm, actions) = F::transition(driver.fsm, event);
    let progress = worked_off(driver.timers, actions);
    (DiscoveryDriverView { fsm, timers: progress.timers }, progress.effects)
}

/// What a signal does: it counts if it came over no router in between.
pub open spec fn reacts_to_signal<F: DiscoveryFsm>(
    driver: DiscoveryDriverView<F::V>,
    signal: SignalView,
    from: SocketAddr,
    ttl: u8,
) -> (DiscoveryDriverView<F::V>, Seq<DiscoveryEffectView>) {
    if ttl == gtsm::REQUIRED_TTL {
        reacts::<F>(driver, FsmEventView::RecvSignal { signal, from })
    } else {
        (driver, Seq::empty())
    }
}

/// What an expiry does: it counts if its generation is current.
pub open spec fn reacts_to_expiry<F: DiscoveryFsm>(
    driver: DiscoveryDriverView<F::V>,
    id: TimerId,
    kind: TimerKind,
    generation: u64,
) -> (DiscoveryDriverView<F::V>, Seq<DiscoveryEffectView>) {
    if driver.timers.is_current(id, generation) {
        reacts::<F>(
            DiscoveryDriverView { timers: driver.timers.forget(id), ..driver },
            FsmEventView::TimerExpired(id, kind),
        )
    } else {
        (driver, Seq::empty())
    }
}

fn no_effects() -> (r: Vec<DiscoveryEffect>)
    ensures
        effect_views(r@) == Seq::<DiscoveryEffectView>::empty(),
{
    let r: Vec<DiscoveryEffect> = Vec::new();
    assert(effect_views(r@) =~= Seq::<DiscoveryEffectView>::empty());
    r
}

impl<F: DiscoveryFsm> DiscoveryDriver<F> {
    pub fn new(fsm: F) -> (r: Self)
        ensures
            r@ == (DiscoveryDriverView { fsm: fsm@, timers: TimerSetView::none() }),
    {
        DiscoveryDriver { fsm, timers: TimerSet::default() }
    }

    /// The state machine.
    pub fn fsm(&self) -> (r: &F)
        ensures
            r@ == self@.fsm,
    {
        &self.fsm
    }

    /// React to an event. A router's discovery begins with
    /// `AppStartDiscovery`; a modem's needs nothing.
    pub fn react(&mut self, event: FsmEvent) -> (r: Vec<DiscoveryEffect>)
        ensures
            (final(self)@, effect_views(r@)) == reacts::<F>(old(self)@, event@),
    {
        let actions = self.fsm.step(event);
        work_off(&mut self.timers, actions)
    }

    /// React to a datagram that came from `from` with the time to live `ttl`.
    /// One that is no signal is an error and changes nothing; a signal that was
    /// forwarded on its way is dropped.
    pub fn on_datagram(&mut self, datagram: BytesMut, from: SocketAddr, ttl: u8) -> (r: Result<
        Vec<DiscoveryEffect>,
        CodecError,
    >)
        ensures
            match SignalView::read(buffer::buffer_content(datagram)) {
                Ok(signal) => r matches Ok(effects) && (final(self)@, effect_views(effects@))
                    == reacts_to_signal::<F>(old(self)@, signal, from, ttl),
                Err(e) => r matches Err(x) && x@ == e && final(self)@ == old(self)@,
            },
    {
        match SignalCodec.decode_datagram(datagram) {
            Ok(signal) => if gtsm::is_gtsm_valid(ttl) {
                Ok(self.react(FsmEvent::RecvSignal { signal, from }))
            } else {
                Ok(no_effects())
            },
            Err(e) => Err(e),
        }
    }

    /// React to the expiry of a timer. One that was cancelled or armed anew
    /// since is ignored.
    pub fn on_timer(&mut self, id: TimerId, kind: TimerKind, generation: u64) -> (r: Vec<
        DiscoveryEffect,
    >)
        ensures
            (final(self)@, effect_views(r@)) == reacts_to_expiry::<F>(
                old(self)@,
                id,
                kind,
                generation,
            ),
    {
        if !self.timers.is_current_generation(id, generation) {
            return no_effects();
        }
        self.timers.forget(id);
        self.react(FsmEvent::TimerExpired(id, kind))
    }

    /// React to the daemon's shutdown.
    pub fn on_shutdown(&mut self) -> (r: Vec<DiscoveryEffect>)
        ensures
            (final(self)@, effect_views(r@)) == reacts::<F>(
                old(self)@,
                FsmEventView::AppShutdown { reason: StatusCode(StatusCode::SHUTTING_DOWN) },
            ),
    {
        self.react(FsmEvent::AppShutdown { reason: StatusCode(StatusCode::SHUTTING_DOWN) })
    }
}

} // verus!
