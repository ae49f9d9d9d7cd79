//! The functions of the tasks do what is said of them, whatever they are called
//! with.

use vstd::prelude::*;
use bytes::BytesMut;
use crate::daemon::config::{apply_overrides, ModemConfig};
use crate::daemon::discovery;
use crate::daemon::discovery::{DiscoveryDriver, DiscoveryEffect, DiscoveryEffectView};
use crate::daemon::events::{
    discovery_event, session_event, translate, translate_emitted, DaemonEvent, PeerInfo,
};
use crate::daemon::runtime::SessionCommand;
use crate::daemon::session;
use crate::daemon::session::{
    command_view, event_of, Effect, EffectView, Outcome, OutcomeView, Reaction, SessionDriver,
};
use crate::daemon::timer_set::{TimerEntry, TimerSet};
use crate::fsm::discovery_modem::ModemDiscoveryFsm;
use crate::fsm::discovery_router::RouterDiscoveryFsm;
use crate::fsm::events::{EmittedEvent, FsmEventView};
use crate::fsm::session_modem::ModemSessionFsm;
use crate::fsm::session_router::RouterSessionFsm;
use crate::fsm::timers::{TimerId, TimerKind};
use crate::net::framed::{frame_len, MessageCodec};
use crate::proto::addr::SocketAddr;
use crate::proto::buffer::buffer_content;
use crate::proto::error::{CodecError, CodecErrorView};
use crate::proto::ids::ExtensionId;
use crate::proto::message::{Message, MessageView};
use crate::proto::signal::SignalView;
use crate::proto::status::StatusCode;

verus! {

/// A modem's driver hands messages on, ends the session with the stream, passes
/// commands and forgets that more can come only after the last, and lets an
/// expiry count if it is current.
pub proof fn law_modem_driver(
    message: Message,
    command: Option<SessionCommand>,
    id: TimerId,
    kind: TimerKind,
    generation: u64,
)
    ensures
        forall|d: &mut SessionDriver<ModemSessionFsm>, r: Reaction| #[trigger]
            call_ensures(SessionDriver::<ModemSessionFsm>::on_message, (d, message), r) ==> (
                (*final(d))@,
                r@,
            ) == session::reacts::<ModemSessionFsm>((*d)@, FsmEventView::RecvMessage(message@)),
        forall|d: &mut SessionDriver<ModemSessionFsm>, r: Reaction| #[trigger]
            call_ensures(SessionDriver::<ModemSessionFsm>::on_eof, (d,), r) ==> ({
                let (after, reaction) = session::reacts::<ModemSessionFsm>(
                    (*d)@,
                    FsmEventView::TcpClosed,
                );
                &&& (*final(d))@ == after
                &&& r@.effects == reaction.effects
                &&& !(r@.outcome is Continue)
                &&& !(reaction.outcome is Continue) ==> r@.outcome == reaction.outcome
                &&& reaction.outcome is Continue ==> r@.outcome is Ended
            }),
        forall|d: &mut SessionDriver<ModemSessionFsm>, r: Reaction| #[trigger]
            call_ensures(SessionDriver::<ModemSessionFsm>::on_command, (d, command), r) ==> ({
                let (after, reaction) = session::reacts::<ModemSessionFsm>(
                    (*d)@,
                    event_of(command_view(command)),
                );
                &&& (*final(d))@.fsm == after.fsm
                &&& (*final(d))@.timers == after.timers
                &&& (*final(d))@.commands_open == ((*d)@.commands_open && command is Some)
                &&& r@ == reaction
            }),
        forall|d: &mut SessionDriver<ModemSessionFsm>, r: Reaction| #[trigger]
            call_ensures(SessionDriver::<ModemSessionFsm>::on_timer, (d, id, kind, generation), r)
                ==> ((*final(d))@, r@) == session::reacts_to_expiry::<ModemSessionFsm>(
                (*d)@,
                id,
                kind,
                generation,
            ),
{
}

/// The same of a router's driver.
pub proof fn law_router_driver(
    message: Message,
    command: Option<SessionCommand>,
    id: TimerId,
    kind: TimerKind,
    generation: u64,
)
    ensures
        forall|d: &mut SessionDriver<RouterSessionFsm>, r: Reaction| #[trigger]
            call_ensures(SessionDriver::<RouterSessionFsm>::on_message, (d, message), r) ==> (
                (*final(d))@,
                r@,
            ) == session::reacts::<RouterSessionFsm>((*d)@, FsmEventView::RecvMessage(message@)),
        forall|d: &mut SessionDriver<RouterSessionFsm>, r: Reaction| #[trigger]
            call_ensures(SessionDriver::<RouterSessionFsm>::on_eof, (d,), r) ==> ({
                let (after, reaction) = session::reacts::<RouterSessionFsm>(
                    (*d)@,
                    FsmEventView::TcpClosed,
                );
                &&& (*final(d))@ == after
                &&& r@.effects == reaction.effects
                &&& !(r@.outcome is Continue)
                &&& !(reaction.outcome is Continue) ==> r@.outcome == reaction.outcome
                &&& reaction.outcome is Continue ==> r@.outcome is Ended
            }),
        forall|d: &mut SessionDriver<RouterSessionFsm>, r: Reaction| #[trigger]
            call_ensures(SessionDriver::<RouterSessionFsm>::on_command, (d, command), r) ==> ({
                let (after, reaction) = session::reacts::<RouterSessionFsm>(
                    (*d)@,
                    event_of(command_view(command)),
                );
                &&& (*final(d))@.fsm == after.fsm
                &&& (*final(d))@.timers == after.timers
                &&& (*final(d))@.commands_open == ((*d)@.commands_open && command is Some)
                &&& r@ == reaction
            }),
        forall|d: &mut SessionDriver<RouterSessionFsm>, r: Reaction| #[trigger]
            call_ensures(SessionDriver::<RouterSessionFsm>::on_timer, (d, id, kind, generation), r)
                ==> ((*final(d))@, r@) == session::reacts_to_expiry::<RouterSessionFsm>(
                (*d)@,
                id,
                kind,
                generation,
            ),
{
}

/// A new driver has no timer armed and waits for commands.
pub proof fn law_new_drivers(
    router: RouterSessionFsm,
    modem: ModemSessionFsm,
    router_driver: SessionDriver<RouterSessionFsm>,
    modem_driver: SessionDriver<ModemSessionFsm>,
    id: u32,
)
    requires
        call_ensures(SessionDriver::<RouterSessionFsm>::new, (router,), router_driver),
        call_ensures(SessionDriver::<ModemSessionFsm>::new, (modem,), modem_driver),
    ensures
        router_driver@.fsm == router@,
        router_driver@.commands_open,
        !router_driver@.timers.armed.contains_key(id),
        !router_driver@.timers.last.contains_key(id),
        modem_driver@.fsm == modem@,
        modem_driver@.commands_open,
        !modem_driver@.timers.armed.contains_key(id),
        !modem_driver@.timers.last.contains_key(id),
{
}

/// A discovery task takes a datagram for the signal in it, and one that holds
/// none is an error that changes nothing; shutting down is status 255.
pub proof fn law_discovery_drivers(datagram: BytesMut, from: SocketAddr, ttl: u8)
    ensures
        forall|
            d: &mut DiscoveryDriver<RouterDiscoveryFsm>,
            r: Result<Vec<DiscoveryEffect>, CodecError>,
        | #[trigger]
            call_ensures(
                DiscoveryDriver::<RouterDiscoveryFsm>::on_datagram,
                (d, datagram, from, ttl),
                r,
            ) ==> match SignalView::read(buffer_content(datagram)) {
                Ok(signal) => r matches Ok(effects) && ((*final(d))@, discovery::effect_views(
                    effects@,
                )) == discovery::reacts_to_signal::<RouterDiscoveryFsm>((*d)@, signal, from, ttl),
                Err(e) => r matches Err(x) && x@ == e && (*final(d))@ == (*d)@,
            },
        forall|
            d: &mut DiscoveryDriver<ModemDiscoveryFsm>,
            r: Result<Vec<DiscoveryEffect>, CodecError>,
        | #[trigger]
            call_ensures(
                DiscoveryDriver::<ModemDiscoveryFsm>::on_datagram,
                (d, datagram, from, ttl),
                r,
            ) ==> match SignalView::read(buffer_content(datagram)) {
                Ok(signal) => r matches Ok(effects) && ((*final(d))@, discovery::effect_views(
                    effects@,
                )) == discovery::reacts_to_signal::<ModemDiscoveryFsm>((*d)@, signal, from, ttl),
                Err(e) => r matches Err(x) && x@ == e && (*final(d))@ == (*d)@,
            },
        forall|d: &mut DiscoveryDriver<RouterDiscoveryFsm>, r: Vec<DiscoveryEffect>| #[trigger]
            call_ensures(DiscoveryDriver::<RouterDiscoveryFsm>::on_shutdown, (d,), r) ==> (
                (*final(d))@,
                discovery::effect_views(r@),
            ) == discovery::reacts::<RouterDiscoveryFsm>(
                (*d)@,
                FsmEventView::AppShutdown { reason: StatusCode(255) },
            ),
{
}

/// Effects are what they hold, in order, and so is the outcome.
pub proof fn law_effects_say_what_they_hold(
    effect: Effect,
    outcome: Outcome,
    reaction: Reaction,
    sent: DiscoveryEffect,
)
    ensures
        match effect {
            Effect::Write(octets) => effect@ == EffectView::Write(buffer_content(octets)),
            Effect::StartTimer { id, kind, duration, periodic, generation } => effect@ == (
            EffectView::StartTimer { id, kind, duration, periodic, generation }),
            Effect::StopTimer(id) => effect@ == EffectView::StopTimer(id),
            Effect::Emit(event) => effect@ == EffectView::Emit(event@),
        },
        match outcome {
            Outcome::Continue => outcome@ is Continue,
            Outcome::Close => outcome@ is Close,
            Outcome::Ended => outcome@ is Ended,
            Outcome::Failed(e) => outcome@ == OutcomeView::Failed(e@),
        },
        reaction@.outcome == reaction.outcome@,
        reaction@.effects.len() == reaction.effects@.len(),
        forall|i: int|
            0 <= i < reaction.effects@.len() ==> (#[trigger] reaction@.effects[i])
                == reaction.effects@[i]@,
        match sent {
            DiscoveryEffect::SendToGroup(octets) => sent@ == DiscoveryEffectView::SendToGroup(
                buffer_content(octets),
            ),
            DiscoveryEffect::SendTo { octets, dest } => sent@ == (DiscoveryEffectView::SendTo {
                octets: buffer_content(octets),
                dest,
            }),
            DiscoveryEffect::Unsendable(e) => sent@ == DiscoveryEffectView::Unsendable(e@),
            DiscoveryEffect::StartTimer { id, kind, duration, periodic, generation } => sent@ == (
            DiscoveryEffectView::StartTimer { id, kind, duration, periodic, generation }),
            DiscoveryEffect::StopTimer(id) => sent@ == DiscoveryEffectView::StopTimer(id),
            DiscoveryEffect::Publish(event) => sent@ == DiscoveryEffectView::Publish(event@),
        },
{
}

/// What a state machine emitted is translated into what subscribers are to hear.
pub proof fn law_events_are_translated(
    emitted: EmittedEvent,
    peer: PeerInfo,
    negotiated: Vec<ExtensionId>,
    of_session: Option<DaemonEvent>,
    of_discovery: Option<DaemonEvent>,
)
    requires
        call_ensures(translate_emitted, (emitted, &peer, negotiated), of_session),
        call_ensures(translate, (emitted,), of_discovery),
    ensures
        match of_session {
            Some(event) => session_event(emitted@, peer@, negotiated@) == Some(event@),
            None => session_event(emitted@, peer@, negotiated@) is None,
        },
        match of_discovery {
            Some(event) => discovery_event(emitted@) == Some(event@),
            None => discovery_event(emitted@) is None,
        },
{
}

/// Timers are numbered, armed, cancelled and forgotten one by one.
pub proof fn law_timers_are_kept(id: TimerId, periodic: bool, generation: u64)
    ensures
        forall|t: &mut TimerSet, r: u64| #[trigger]
            call_ensures(TimerSet::next_generation_for, (t, id), r) ==> (*final(t))@.armed == (
            *t)@.armed && (*final(t))@.last == (*t)@.last.insert(id.0, r) && r == if !(
            *t)@.last.contains_key(id.0) {
                1
            } else if (*t)@.last[id.0] == 0xffff_ffff_ffff_ffff {
                0
            } else {
                (*t)@.last[id.0] + 1
            },
        forall|t: &mut TimerSet, r: ()| #[trigger]
            call_ensures(TimerSet::arm, (t, id, periodic, generation), r) ==> (*final(t))@.armed
                == (*t)@.armed.insert(id.0, TimerEntry { periodic, generation }) && (
            *final(t))@.last == (*t)@.last,
        forall|t: &mut TimerSet, r: ()| #[trigger]
            call_ensures(TimerSet::cancel, (t, id), r) ==> (*final(t))@.armed == (*t)@.armed.remove(
                id.0,
            ) && (*final(t))@.last == (*t)@.last,
        forall|t: &mut TimerSet, r: u64| #[trigger]
            call_ensures(TimerSet::start, (t, id, periodic), r) ==> (*final(t))@.armed == (
            *t)@.armed.insert(id.0, TimerEntry { periodic, generation: r }) && (*final(t))@.last
                == (*t)@.last.insert(id.0, r),
{
}

/// What is seen of timers is which are armed, and under which number.
pub proof fn law_timers_are_seen(
    timers: TimerSet,
    id: TimerId,
    generation: u64,
    armed: bool,
    current: bool,
)
    requires
        call_ensures(TimerSet::is_armed, (&timers, id), armed),
        call_ensures(TimerSet::is_current_generation, (&timers, id, generation), current),
    ensures
        armed <==> timers@.armed.contains_key(id.0),
        current <==> timers@.armed.contains_key(id.0) && timers@.armed[id.0].generation
            == generation,
{
}

/// The command line takes the place of the interface where it names one, and
/// switches TLS off where it says so; it switches nothing on, and everything
/// else stays as it is configured.
pub proof fn law_command_line_overrides(interface: Option<String>, no_tls: bool)
    ensures
        forall|cfg: &mut ModemConfig, r: ()| #[trigger]
            call_ensures(apply_overrides, (cfg, interface, no_tls), r) ==> ({
                let before = (*cfg).shared.network;
                let after = (*final(cfg)).shared.network;
                &&& after.interface == if interface is Some {
                    interface
                } else {
                    before.interface
                }
                &&& after.use_tls == (before.use_tls && !no_tls)
                &&& after.discovery_v4_group == before.discovery_v4_group
                &&& after.discovery_v6_group == before.discovery_v6_group
                &&& after.discovery_port == before.discovery_port
                &&& after.tcp_port == before.tcp_port
                &&& after.bind_addr == before.bind_addr
                &&& after.gtsm_enforce == before.gtsm_enforce
                &&& (*final(cfg)).shared.tls == (*cfg).shared.tls
                &&& (*final(cfg)).shared.timers == (*cfg).shared.timers
                &&& (*final(cfg)).peer_description == (*cfg).peer_description
            }),
{
}

/// A stream gives up a frame once it is all there, as the message in it or as
/// the reason that there is none, and is left as it was until then.
pub proof fn law_frames_are_taken_off()
    ensures
        forall|codec: &mut MessageCodec, src: &mut BytesMut, r: Result<
            Option<Message>,
            CodecError,
        >| #[trigger]
            call_ensures(MessageCodec::decode, (codec, src), r) ==> match frame_len(
                buffer_content(*src),
            ) {
                None => r == Ok::<Option<Message>, CodecError>(None) && buffer_content(*final(src))
                    == buffer_content(*src),
                Some(n) => buffer_content(*final(src)) == buffer_content(*src).skip(n as int)
                    && match r {
                    Ok(Some(m)) => MessageView::read(buffer_content(*src).take(n as int)) == Ok::<
                        MessageView,
                        CodecErrorView,
                    >(m@),
                    Ok(None) => false,
                    Err(e) => MessageView::read(buffer_content(*src).take(n as int)) == Err::<
                        MessageView,
                        CodecErrorView,
                    >(e@),
                },
            },
{
}

/// A message is put behind what a stream holds, whole; one that has no wire form
/// leaves the stream as it was.
pub proof fn law_frames_are_put_on(message: Message)
    ensures
        forall|codec: &mut MessageCodec, dst: &mut BytesMut, r: Result<(), CodecError>| #[trigger]
            call_ensures(MessageCodec::encode, (codec, message, dst), r) ==> match r {
                Ok(_) => message@.wire_form() matches Ok(octets) && buffer_content(*final(dst))
                    == buffer_content(*dst) + octets,
                Err(e) => message@.wire_form() == Err::<Seq<u8>, CodecErrorView>(e@)
                    && buffer_content(*final(dst)) == buffer_content(*dst),
            },
{
}

} // verus!
