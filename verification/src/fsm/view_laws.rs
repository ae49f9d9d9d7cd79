//! What goes into the state machines and what comes out of them is taken as it
//! is held: nothing that an event or an action carries is lost or changed.

use vstd::prelude::*;
use crate::fsm::events::{
    action_views, DestinationAddrs, EmittedEvent, EmittedEventView, FsmAction, FsmActionView,
    FsmEvent, FsmEventView,
};
use crate::fsm::transaction::{PendingRequest, RequestKind, TransactionView};
use crate::proto::data_item::{DataItem, DataItemView};
use crate::proto::mac::MacAddress;
use crate::proto::message::Message;
use crate::proto::signal::Signal;

verus! {

/// Every event is what it says.
pub proof fn law_events_say_what_they_hold(event: FsmEvent)
    ensures
        match event {
            FsmEvent::RecvMessage(message) => event@ == FsmEventView::RecvMessage(message@),
            FsmEvent::RecvSignal { signal, from } => event@ == (FsmEventView::RecvSignal {
                signal: signal@,
                from,
            }),
            FsmEvent::TcpConnected => event@ == FsmEventView::TcpConnected,
            FsmEvent::TcpAccepted => event@ == FsmEventView::TcpAccepted,
            FsmEvent::TcpClosed => event@ == FsmEventView::TcpClosed,
            FsmEvent::TimerExpired(id, kind) => event@ == FsmEventView::TimerExpired(id, kind),
            FsmEvent::AppAddDestination { mac, metrics, addrs } => event@ == (
            FsmEventView::AppAddDestination { mac, metrics, addrs: addrs@ }),
            FsmEvent::AppDropDestination { mac, reason } => event@ == (
            FsmEventView::AppDropDestination { mac, reason }),
            FsmEvent::AppUpdateMetrics { mac, metrics } => event@ == (
            FsmEventView::AppUpdateMetrics { mac, metrics }),
            FsmEvent::AppAnnounceDestination { mac } => event@ == (
            FsmEventView::AppAnnounceDestination { mac }),
            FsmEvent::AppRequestLinkCharacteristics { mac } => event@ == (
            FsmEventView::AppRequestLinkCharacteristics { mac }),
            FsmEvent::AppStartDiscovery => event@ == FsmEventView::AppStartDiscovery,
            FsmEvent::AppShutdown { reason } => event@ == (FsmEventView::AppShutdown { reason }),
        },
{
}

/// Every action is what it says, and a list of them says what each says, in
/// order.
pub proof fn law_actions_say_what_they_hold(action: FsmAction, actions: Seq<FsmAction>)
    ensures
        match action {
            FsmAction::SendMessage(message) => action@ == FsmActionView::SendMessage(message@),
            FsmAction::SendSignal { signal, target } => action@ == (FsmActionView::SendSignal {
                signal: signal@,
                target,
            }),
            FsmAction::StartTimer { id, kind, duration, periodic } => action@ == (
            FsmActionView::StartTimer { id, kind, duration, periodic }),
            FsmAction::CancelTimer(id) => action@ == FsmActionView::CancelTimer(id),
            FsmAction::ResetHeartbeat { timer_id, missed_deadline } => action@ == (
            FsmActionView::ResetHeartbeat { timer_id, missed_deadline }),
            FsmAction::CloseTcp => action@ == FsmActionView::CloseTcp,
            FsmAction::Emit(event) => action@ == FsmActionView::Emit(event@),
        },
        action_views(actions).len() == actions.len(),
        forall|i: int| 0 <= i < actions.len() ==> (#[trigger] action_views(actions)[i])
            == actions[i]@,
{
}

/// Every emitted event is what it says.
pub proof fn law_emitted_events_say_what_they_hold(event: EmittedEvent)
    ensures
        match event {
            EmittedEvent::SessionUp { peer_extensions } => event@ == (EmittedEventView::SessionUp {
                peer_extensions: peer_extensions@,
            }),
            EmittedEvent::SessionDown(reason) => event@ == EmittedEventView::SessionDown(reason),
            EmittedEvent::PeerDiscovered { addr, peer_description, use_tls } => event@ == (
            EmittedEventView::PeerDiscovered {
                addr,
                peer_description: match peer_description {
                    Some(text) => Some(text@),
                    None => None,
                },
                use_tls,
            }),
            EmittedEvent::DestinationUp { mac, metrics, addrs } => event@ == (
            EmittedEventView::DestinationUp { mac, metrics, addrs: addrs@ }),
            EmittedEvent::DestinationDown { mac, reason } => event@ == (
            EmittedEventView::DestinationDown { mac, reason }),
            EmittedEvent::DestinationUpdate { mac, metrics } => event@ == (
            EmittedEventView::DestinationUpdate { mac, metrics }),
        },
{
}

/// The addresses of a destination are those in the four lists, in order.
pub proof fn law_addresses_say_what_they_hold(addrs: DestinationAddrs)
    ensures
        addrs@.v4 == addrs.v4@,
        addrs@.v6 == addrs.v6@,
        addrs@.v4_subnets.len() == addrs.v4_subnets@.len(),
        addrs@.v6_subnets.len() == addrs.v6_subnets@.len(),
        forall|i: int|
            0 <= i < addrs.v4_subnets@.len() ==> (#[trigger] addrs@.v4_subnets[i])
                == addrs.v4_subnets@[i]@,
        forall|i: int|
            0 <= i < addrs.v6_subnets@.len() ==> (#[trigger] addrs@.v6_subnets[i])
                == addrs.v6_subnets@[i]@,
{
}

/// A message or signal is its type and its data items, in order.
pub proof fn law_messages_say_what_they_hold(message: Message, signal: Signal)
    ensures
        message@.message_type == message.message_type,
        message@.data_items.len() == message.data_items@.len(),
        forall|i: int|
            0 <= i < message.data_items@.len() ==> (#[trigger] message@.data_items[i])
                == message.data_items@[i]@,
        signal@.signal_type == signal.signal_type,
        signal@.data_items.len() == signal.data_items@.len(),
        forall|i: int|
            0 <= i < signal.data_items@.len() ==> (#[trigger] signal@.data_items[i])
                == signal.data_items@[i]@,
{
}

/// Every data item is what it says.
pub proof fn law_data_items_say_what_they_hold(item: DataItem)
    ensures
        match item {
            DataItem::Status { code, text } => item@ == (DataItemView::Status {
                code,
                text: text@,
            }),
            DataItem::Ipv4ConnectionPoint { flags, addr, port } => item@ == (
            DataItemView::Ipv4ConnectionPoint { flags, addr, port }),
            DataItem::Ipv6ConnectionPoint { flags, addr, port } => item@ == (
            DataItemView::Ipv6ConnectionPoint { flags, addr, port }),
            DataItem::PeerType { flags, description } => item@ == (DataItemView::PeerType {
                flags,
                description: description@,
            }),
            DataItem::HeartbeatInterval(d) => item@ == DataItemView::HeartbeatInterval(d),
            DataItem::ExtensionsSupported(ids) => item@ == DataItemView::ExtensionsSupported(ids@),
            DataItem::MacAddress(mac) => item@ == DataItemView::MacAddress(mac),
            DataItem::Ipv4Address { add, addr } => item@ == (DataItemView::Ipv4Address {
                add,
                addr,
            }),
            DataItem::Ipv6Address { add, addr } => item@ == (DataItemView::Ipv6Address {
                add,
                addr,
            }),
            DataItem::Ipv4AttachedSubnet { add, subnet } => item@ == (
            DataItemView::Ipv4AttachedSubnet { add, subnet: subnet@ }),
            DataItem::Ipv6AttachedSubnet { add, subnet } => item@ == (
            DataItemView::Ipv6AttachedSubnet { add, subnet: subnet@ }),
            DataItem::MaxDataRateReceive(v) => item@ == DataItemView::MaxDataRateReceive(v),
            DataItem::MaxDataRateTransmit(v) => item@ == DataItemView::MaxDataRateTransmit(v),
            DataItem::CurrentDataRateReceive(v) => item@ == DataItemView::CurrentDataRateReceive(v),
            DataItem::CurrentDataRateTransmit(v) => item@ == DataItemView::CurrentDataRateTransmit(
                v,
            ),
            DataItem::Latency(d) => item@ == DataItemView::Latency(d),
            DataItem::Resources(v) => item@ == DataItemView::Resources(v),
            DataItem::RelativeLinkQualityReceive(v) => item@
                == DataItemView::RelativeLinkQualityReceive(v),
            DataItem::RelativeLinkQualityTransmit(v) => item@
                == DataItemView::RelativeLinkQualityTransmit(v),
            DataItem::Mtu(v) => item@ == DataItemView::Mtu(v),
            DataItem::Unknown(raw) => item@ == DataItemView::Unknown(raw@),
        },
{
}

/// Opening a request puts it down under its destination, or as that of the
/// session; closing it takes it away; and nothing else changes.
pub proof fn law_requests_open_and_close(
    tx: TransactionView,
    mac: MacAddress,
    other: MacAddress,
    kind: RequestKind,
)
    ensures
        tx.with_session(kind).session_pending == Some(PendingRequest { kind }),
        tx.with_session(kind).per_destination == tx.per_destination,
        tx.without_session().session_pending is None,
        tx.without_session().per_destination == tx.per_destination,
        tx.with_destination(mac, kind).per_destination == tx.per_destination.insert(
            mac,
            PendingRequest { kind },
        ),
        tx.with_destination(mac, kind).session_pending == tx.session_pending,
        tx.without_destination(mac).per_destination == tx.per_destination.remove(mac),
        tx.without_destination(mac).session_pending == tx.session_pending,
        TransactionView::idle().session_pending is None,
        !TransactionView::idle().per_destination.contains_key(other),
{
}

} // verus!
