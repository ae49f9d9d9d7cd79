//! Which messages of a session always reach the other side, and what the ends
//! of a session do to each other through their octets.

use vstd::prelude::*;
use vstd::utf8;
use crate::daemon::session::{
    reacts, worked_off, EffectView, OutcomeView, Progress, ReactionView, SessionDriverView,
};
use crate::daemon::session_laws as driver_laws;
use crate::daemon::timer_set::TimerSetView;
use crate::fsm::events::{DestinationAddrsView, EmittedEventView, FsmActionView, FsmEventView};
use crate::fsm::message_laws;
use crate::fsm::session_common::status_item;
use crate::fsm::session_modem::{ModemSessionFsm, ModemSessionState, ModemSessionView};
use crate::fsm::session_router::{RouterSessionFsm, RouterSessionState, RouterSessionView};
use crate::net::framed;
use crate::net::framed::travels;
use crate::proto::error::CodecErrorView;
use crate::proto::layout;
use crate::proto::mac::MacAddress;
use crate::proto::message::MessageView;
use crate::proto::metrics::LinkMetrics;
use crate::proto::status::StatusCode;
use crate::proto::wire;

verus! {

/// A status without a text takes one octet.
proof fn lemma_status_travels(status: StatusCode)
    ensures
        status_item(status).value().len() == 1,
        status_item(status).refusal() is None,
        status_item(status).exact(),
{
    reveal_with_fuel(utf8::encode_utf8, 1);
    assert(status_item(status).value() =~= seq![status.0]);
}

/// A message with at most two short data items has a wire form.
proof fn lemma_short_message_travels(message: MessageView)
    requires
        message.data_items.len() <= 2,
        forall|i: int|
            0 <= i < message.data_items.len() ==> {
                &&& (#[trigger] message.data_items[i]).value().len() <= 8
                &&& message.data_items[i].refusal() is None
                &&& message.data_items[i].exact()
            },
    ensures
        travels(message),
{
    reveal(travels);
    reveal_with_fuel(layout::body_of, 3);
    reveal_with_fuel(layout::first_refusal, 3);
    let items = message.data_items;
    if items.len() > 0 {
        let last = items.last();
        assert(last == items[items.len() - 1]);
        wire::lemma_be_len(last.type_id().0 as nat, 2);
        wire::lemma_be_len(last.value().len(), 2);
        assert(last.encoding().len() <= 12);
        if items.len() > 1 {
            let first = items.drop_last().last();
            assert(first == items[0]);
            wire::lemma_be_len(first.type_id().0 as nat, 2);
            wire::lemma_be_len(first.value().len(), 2);
            assert(first.encoding().len() <= 12);
        }
    }
    assert(layout::body_of(items).len() <= 24);
}

/// Heartbeats, terminations, answers and the end of a destination always have a
/// wire form that says all of them, whatever the status, for every EUI-48
/// address.
pub proof fn law_short_messages_travel(mac: MacAddress, status: StatusCode)
    requires
        mac is Eui48,
    ensures
        travels(MessageView::heartbeat()),
        travels(MessageView::session_termination(status)),
        travels(MessageView::session_termination_response()),
        travels(MessageView::destination_up_response(mac, status)),
        travels(MessageView::destination_down(mac, status)),
        travels(MessageView::destination_down_response(mac, status)),
{
    lemma_status_travels(status);
    lemma_short_message_travels(MessageView::heartbeat());
    lemma_short_message_travels(MessageView::session_termination(status));
    lemma_short_message_travels(MessageView::session_termination_response());
    lemma_short_message_travels(MessageView::destination_up_response(mac, status));
    lemma_short_message_travels(MessageView::destination_down(mac, status));
    lemma_short_message_travels(MessageView::destination_down_response(mac, status));
}

/// Whether octets are what one side writes for a message, and what the other
/// side reads as that message.
#[verifier::opaque]
pub open spec fn carries(octets: Seq<u8>, message: MessageView) -> bool {
    &&& message.wire_form() == Ok::<Seq<u8>, CodecErrorView>(octets)
    &&& MessageView::read(octets) == Ok::<MessageView, CodecErrorView>(message)
}

/// Every message that travels is carried by its octets.
pub proof fn law_travels_whole(message: MessageView)
    requires
        travels(message),
    ensures
        message.wire_form() is Ok,
        carries(message.wire_form()->Ok_0, message),
{
    reveal(travels);
    reveal(carries);
    let octets = message.wire_form()->Ok_0;
    framed::law_stream_roundtrip(message, octets, Seq::empty());
    assert((octets + Seq::<u8>::empty()).take(octets.len() as int) =~= octets);
}

/// One message to send is one write.
proof fn lemma_one_write(timers: TimerSetView, message: MessageView, octets: Seq<u8>)
    requires
        carries(octets, message),
    ensures
        worked_off(timers, seq![FsmActionView::SendMessage(message)]) == (Progress {
            timers,
            reaction: ReactionView {
                effects: seq![EffectView::Write(octets)],
                outcome: OutcomeView::Continue,
            },
        }),
{
    reveal(carries);
    let actions = seq![FsmActionView::SendMessage(message)];
    assert(actions.drop_last() =~= Seq::<FsmActionView>::empty());
    reveal_with_fuel(worked_off, 2);
    assert(worked_off(timers, actions) =~= Progress {
        timers,
        reaction: ReactionView {
            effects: seq![EffectView::Write(octets)],
            outcome: OutcomeView::Continue,
        },
    });
}

/// An answer and an event at the head of the actions are the first two effects.
proof fn lemma_answer_and_event(
    timers: TimerSetView,
    actions: Seq<FsmActionView>,
    answer: MessageView,
    octets: Seq<u8>,
    event: EmittedEventView,
)
    requires
        actions.len() >= 2,
        actions[0] == FsmActionView::SendMessage(answer),
        actions[1] == FsmActionView::Emit(event),
        carries(octets, answer),
    ensures
        worked_off(timers, actions).reaction.effects.len() >= 2,
        worked_off(timers, actions).reaction.effects[0] == EffectView::Write(octets),
        worked_off(timers, actions).reaction.effects[1] == EffectView::Emit(event),
{
    lemma_one_write(timers, answer, octets);
    assert(actions.take(2).drop_last() =~= seq![FsmActionView::SendMessage(answer)]);
    let two = worked_off(timers, actions.take(2)).reaction.effects;
    assert(two =~= seq![EffectView::Write(octets), EffectView::Emit(event)]);
    driver_laws::lemma_effects_stay(timers, actions, 2, 0);
    driver_laws::lemma_effects_stay(timers, actions, 2, 1);
}

/// A modem whose application adds or drops a destination, or reports its
/// metrics, writes one message that says so, and nothing else happens.
pub proof fn law_modem_writes_what_it_is_told(
    modem: SessionDriverView<ModemSessionView>,
    event: FsmEventView,
    message: MessageView,
    octets: Seq<u8>,
)
    requires
        modem.fsm.state == ModemSessionState::InSession,
        match event {
            FsmEventView::AppAddDestination { mac, metrics, addrs } => {
                &&& !modem.fsm.tx.per_destination.contains_key(mac)
                &&& message == MessageView::destination_up(mac, metrics, addrs)
            },
            FsmEventView::AppUpdateMetrics { mac, metrics } => {
                &&& modem.fsm.destinations.contains_key(mac)
                &&& message == MessageView::destination_update(mac, metrics)
            },
            FsmEventView::AppDropDestination { mac, reason } => {
                &&& modem.fsm.destinations.contains_key(mac)
                &&& !modem.fsm.tx.per_destination.contains_key(mac)
                &&& message == MessageView::destination_down(mac, reason)
            },
            _ => false,
        },
        carries(octets, message),
    ensures
        reacts::<ModemSessionFsm>(modem, event).1 == (ReactionView {
            effects: seq![EffectView::Write(octets)],
            outcome: OutcomeView::Continue,
        }),
{
    assert(modem.fsm.next(event).1 =~= seq![FsmActionView::SendMessage(message)]);
    lemma_one_write(modem.timers, message, octets);
}

/// A router that reads of a destination that came up tells its application the
/// very metrics and addresses that were written, and writes an answer.
pub proof fn law_router_hears_destination_up(
    router: SessionDriverView<RouterSessionView>,
    mac: MacAddress,
    metrics: LinkMetrics,
    addrs: DestinationAddrsView,
    answer: Seq<u8>,
)
    requires
        router.fsm.state == RouterSessionState::InSession,
        carries(
            answer,
            MessageView::destination_up_response(mac, StatusCode(StatusCode::SUCCESS)),
        ),
    ensures
        ({
            let heard = MessageView::destination_up(mac, metrics, addrs);
            let effects = reacts::<RouterSessionFsm>(
                router,
                FsmEventView::RecvMessage(heard),
            ).1.effects;
            &&& effects.len() >= 2
            &&& effects[0] == EffectView::Write(answer)
            &&& effects[1] == EffectView::Emit(
                EmittedEventView::DestinationUp { mac, metrics, addrs },
            )
        }),
{
    let heard = MessageView::destination_up(mac, metrics, addrs);
    message_laws::law_destination_up_is_read(mac, metrics, addrs);
    let actions = router.fsm.next(FsmEventView::RecvMessage(heard)).1;
    lemma_answer_and_event(
        router.timers,
        actions,
        MessageView::destination_up_response(mac, StatusCode(StatusCode::SUCCESS)),
        answer,
        EmittedEventView::DestinationUp { mac, metrics, addrs },
    );
}

/// A router that reads of a destination that went down tells its application
/// the reason that was written, and writes an answer.
pub proof fn law_router_hears_destination_down(
    router: SessionDriverView<RouterSessionView>,
    mac: MacAddress,
    reason: StatusCode,
    answer: Seq<u8>,
)
    requires
        router.fsm.state == RouterSessionState::InSession,
        carries(
            answer,
            MessageView::destination_down_response(mac, StatusCode(StatusCode::SUCCESS)),
        ),
    ensures
        ({
            let heard = MessageView::destination_down(mac, reason);
            let effects = reacts::<RouterSessionFsm>(
                router,
                FsmEventView::RecvMessage(heard),
            ).1.effects;
            &&& effects.len() >= 2
            &&& effects[0] == EffectView::Write(answer)
            &&& effects[1] == EffectView::Emit(EmittedEventView::DestinationDown { mac, reason })
        }),
{
    let heard = MessageView::destination_down(mac, reason);
    message_laws::law_destination_status_is_read(mac, reason);
    let actions = router.fsm.next(FsmEventView::RecvMessage(heard)).1;
    lemma_answer_and_event(
        router.timers,
        actions,
        MessageView::destination_down_response(mac, StatusCode(StatusCode::SUCCESS)),
        answer,
        EmittedEventView::DestinationDown { mac, reason },
    );
}

/// A router that reads of new metrics tells its application those that were
/// written.
pub proof fn law_router_hears_metrics(
    router: SessionDriverView<RouterSessionView>,
    mac: MacAddress,
    metrics: LinkMetrics,
)
    requires
        router.fsm.state == RouterSessionState::InSession,
    ensures
        ({
            let heard = MessageView::destination_update(mac, metrics);
            let effects = reacts::<RouterSessionFsm>(
                router,
                FsmEventView::RecvMessage(heard),
            ).1.effects;
            &&& effects.len() >= 1
            &&& effects[0] == EffectView::Emit(
                EmittedEventView::DestinationUpdate { mac, metrics },
            )
        }),
{
    let heard = MessageView::destination_update(mac, metrics);
    message_laws::law_destination_update_is_read(mac, metrics);
    let actions = router.fsm.next(FsmEventView::RecvMessage(heard)).1;
    let one = actions.take(1);
    assert(one.drop_last() =~= Seq::<FsmActionView>::empty());
    reveal_with_fuel(worked_off, 2);
    assert(worked_off(router.timers, one).reaction.effects[0] == EffectView::Emit(
        EmittedEventView::DestinationUpdate { mac, metrics },
    ));
    driver_laws::lemma_effects_stay(router.timers, actions, 1, 0);
}

} // verus!
