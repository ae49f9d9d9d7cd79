//! What is written into messages about destinations can be read out of them.

use vstd::prelude::*;
use crate::fsm::events::DestinationAddrsView;
use crate::fsm::session_common;
use crate::fsm::session_common::{
    addr_items, addrs_of, collected, first_picked, is_metric, metric_items, metrics_of, noted,
    status_item, v4_items, v4_subnet_items, v6_items, v6_subnet_items, SessionConfigView,
};
use crate::fsm::session_modem::session_initialization_response;
use crate::fsm::session_router::session_initialization;
use crate::proto::addr::{Ipv4Addr, Ipv6Addr};
use crate::proto::data_item::DataItemView;
use crate::proto::error::CodecErrorView;
use crate::proto::laws;
use crate::proto::layout;
use crate::proto::mac::MacAddress;
use crate::proto::message::MessageView;
use crate::proto::metrics::LinkMetrics;
use crate::proto::status::StatusCode;
use crate::proto::subnet::{Ipv4NetView, Ipv6NetView};

verus! {

/// One more data item is one more thing noted.
proof fn lemma_metrics_push(items: Seq<DataItemView>, item: DataItemView)
    ensures
        metrics_of(items.push(item)) == noted(metrics_of(items), item),
{
    assert(items.push(item).drop_last() =~= items);
}

/// The data items that report metrics report them whole, whatever stands
/// before.
proof fn lemma_metrics_roundtrip(head: Seq<DataItemView>, m: LinkMetrics)
    ensures
        metrics_of(head + metric_items(m)) == m,
{
    let all = metric_items(m);
    let s1 = head.push(all[0]);
    let s2 = s1.push(all[1]);
    let s3 = s2.push(all[2]);
    let s4 = s3.push(all[3]);
    let s5 = s4.push(all[4]);
    let s6 = s5.push(all[5]);
    let s7 = s6.push(all[6]);
    let s8 = s7.push(all[7]);
    lemma_metrics_push(head, all[0]);
    lemma_metrics_push(s1, all[1]);
    lemma_metrics_push(s2, all[2]);
    lemma_metrics_push(s3, all[3]);
    lemma_metrics_push(s4, all[4]);
    lemma_metrics_push(s5, all[5]);
    lemma_metrics_push(s6, all[6]);
    lemma_metrics_push(s7, all[7]);
    lemma_metrics_push(s8, all[8]);
    assert(head + all =~= s8.push(all[8]));
}

/// Reading the metrics of a message that ends with them.
proof fn lemma_link_metrics(message: MessageView, head: Seq<DataItemView>, m: LinkMetrics)
    requires
        message.data_items == head + metric_items(m),
    ensures
        message.link_metrics() == Some(m),
        message.link_metrics_or_zero() == m,
{
    lemma_metrics_roundtrip(head, m);
    assert(is_metric(message.data_items[head.len() as int]));
}

/// One more data item is one more thing collected.
proof fn lemma_addrs_push(items: Seq<DataItemView>, item: DataItemView)
    ensures
        addrs_of(items.push(item)) == collected(addrs_of(items), item),
{
    assert(items.push(item).drop_last() =~= items);
}

proof fn lemma_v4_roundtrip(head: Seq<DataItemView>, addrs: Seq<Ipv4Addr>)
    ensures
        addrs_of(head + v4_items(addrs)) == (DestinationAddrsView {
            v4: addrs_of(head).v4 + addrs,
            ..addrs_of(head)
        }),
    decreases addrs.len(),
{
    if addrs.len() == 0 {
        assert(head + v4_items(addrs) =~= head);
    } else {
        lemma_v4_roundtrip(head, addrs.drop_last());
        let last = DataItemView::Ipv4Address { add: true, addr: addrs.last() };
        lemma_addrs_push(head + v4_items(addrs.drop_last()), last);
        assert(head + v4_items(addrs) =~= (head + v4_items(addrs.drop_last())).push(last));
        assert(addrs_of(head).v4 + addrs =~= (addrs_of(head).v4 + addrs.drop_last()).push(
            addrs.last(),
        ));
    }
}

proof fn lemma_v6_roundtrip(head: Seq<DataItemView>, addrs: Seq<Ipv6Addr>)
    ensures
        addrs_of(head + v6_items(addrs)) == (DestinationAddrsView {
            v6: addrs_of(head).v6 + addrs,
            ..addrs_of(head)
        }),
    decreases addrs.len(),
{
    if addrs.len() == 0 {
        assert(head + v6_items(addrs) =~= head);
    } else {
        lemma_v6_roundtrip(head, addrs.drop_last());
        let last = DataItemView::Ipv6Address { add: true, addr: addrs.last() };
        lemma_addrs_push(head + v6_items(addrs.drop_last()), last);
        assert(head + v6_items(addrs) =~= (head + v6_items(addrs.drop_last())).push(last));
        assert(addrs_of(head).v6 + addrs =~= (addrs_of(head).v6 + addrs.drop_last()).push(
            addrs.last(),
        ));
    }
}

proof fn lemma_v4_subnets_roundtrip(head: Seq<DataItemView>, nets: Seq<Ipv4NetView>)
    ensures
        addrs_of(head + v4_subnet_items(nets)) == (DestinationAddrsView {
            v4_subnets: addrs_of(head).v4_subnets + nets,
            ..addrs_of(head)
        }),
    decreases nets.len(),
{
    if nets.len() == 0 {
        assert(head + v4_subnet_items(nets) =~= head);
    } else {
        lemma_v4_subnets_roundtrip(head, nets.drop_last());
        let last = DataItemView::Ipv4AttachedSubnet { add: true, subnet: nets.last() };
        lemma_addrs_push(head + v4_subnet_items(nets.drop_last()), last);
        assert(head + v4_subnet_items(nets) =~= (head + v4_subnet_items(nets.drop_last())).push(
            last,
        ));
        assert(addrs_of(head).v4_subnets + nets =~= (addrs_of(head).v4_subnets
            + nets.drop_last()).push(nets.last()));
    }
}

proof fn lemma_v6_subnets_roundtrip(head: Seq<DataItemView>, nets: Seq<Ipv6NetView>)
    ensures
        addrs_of(head + v6_subnet_items(nets)) == (DestinationAddrsView {
            v6_subnets: addrs_of(head).v6_subnets + nets,
            ..addrs_of(head)
        }),
    decreases nets.len(),
{
    if nets.len() == 0 {
        assert(head + v6_subnet_items(nets) =~= head);
    } else {
        lemma_v6_subnets_roundtrip(head, nets.drop_last());
        let last = DataItemView::Ipv6AttachedSubnet { add: true, subnet: nets.last() };
        lemma_addrs_push(head + v6_subnet_items(nets.drop_last()), last);
        assert(head + v6_subnet_items(nets) =~= (head + v6_subnet_items(nets.drop_last())).push(
            last,
        ));
        assert(addrs_of(head).v6_subnets + nets =~= (addrs_of(head).v6_subnets
            + nets.drop_last()).push(nets.last()));
    }
}

/// Metrics add no addresses.
proof fn lemma_addrs_skip_metrics(head: Seq<DataItemView>, m: LinkMetrics, n: nat)
    requires
        n <= 9,
    ensures
        addrs_of(head + metric_items(m).take(n as int)) == addrs_of(head),
    decreases n,
{
    let all = metric_items(m);
    if n == 0 {
        assert(head + all.take(0) =~= head);
    } else {
        lemma_addrs_skip_metrics(head, m, (n - 1) as nat);
        lemma_addrs_push(head + all.take(n - 1), all[n - 1]);
        assert(head + all.take(n as int) =~= (head + all.take(n - 1)).push(all[n - 1]));
    }
}

/// A router reads out of `Destination_Up` what the modem wrote into it:
/// address, metrics, and all addresses and subnets in order.
pub proof fn law_destination_up_is_read(
    mac: MacAddress,
    metrics: LinkMetrics,
    addrs: DestinationAddrsView,
)
    ensures
        MessageView::destination_up(mac, metrics, addrs).mac() == Some(mac),
        MessageView::destination_up(mac, metrics, addrs).link_metrics() == Some(metrics),
        addrs_of(MessageView::destination_up(mac, metrics, addrs).data_items) == addrs,
{
    let message = MessageView::destination_up(mac, metrics, addrs);
    let head = seq![DataItemView::MacAddress(mac)];
    lemma_link_metrics(message, head + addr_items(addrs), metrics);
    assert(message.data_items[0] == DataItemView::MacAddress(mac));
    lemma_addrs_push(Seq::empty(), DataItemView::MacAddress(mac));
    assert(Seq::<DataItemView>::empty().push(DataItemView::MacAddress(mac)) =~= head);
    let s1 = head + v4_items(addrs.v4);
    let s2 = s1 + v6_items(addrs.v6);
    let s3 = s2 + v4_subnet_items(addrs.v4_subnets);
    let s4 = s3 + v6_subnet_items(addrs.v6_subnets);
    lemma_v4_roundtrip(head, addrs.v4);
    lemma_v6_roundtrip(s1, addrs.v6);
    lemma_v4_subnets_roundtrip(s2, addrs.v4_subnets);
    lemma_v6_subnets_roundtrip(s3, addrs.v6_subnets);
    lemma_addrs_skip_metrics(s4, metrics, 9);
    assert(metric_items(metrics).take(9) =~= metric_items(metrics));
    assert(message.data_items =~= s4 + metric_items(metrics));
    assert(addrs_of(message.data_items) =~= addrs);
}

/// A router reads out of `Destination_Update` what the modem wrote into it.
pub proof fn law_destination_update_is_read(mac: MacAddress, metrics: LinkMetrics)
    ensures
        MessageView::destination_update(mac, metrics).mac() == Some(mac),
        MessageView::destination_update(mac, metrics).link_metrics() == Some(metrics),
{
    let message = MessageView::destination_update(mac, metrics);
    lemma_link_metrics(message, seq![DataItemView::MacAddress(mac)], metrics);
    assert(message.data_items[0] == DataItemView::MacAddress(mac));
}

/// The status of a list that begins with an address and a status.
proof fn lemma_second_status(items: Seq<DataItemView>, mac: MacAddress, status: StatusCode)
    requires
        items == seq![DataItemView::MacAddress(mac), status_item(status)],
    ensures
        first_picked(items, session_common::pick_status()) == Some(status),
        first_picked(items, session_common::pick_mac()) == Some(mac),
{
    reveal_with_fuel(first_picked, 3);
    assert(items.drop_first()[0] == status_item(status));
}

/// `Destination_Down` and both responses carry the address and the status that
/// were written into them.
pub proof fn law_destination_status_is_read(mac: MacAddress, status: StatusCode)
    ensures
        MessageView::destination_down(mac, status).mac() == Some(mac),
        MessageView::destination_down(mac, status).status() == Some(status),
        MessageView::destination_up_response(mac, status).mac() == Some(mac),
        MessageView::destination_up_response(mac, status).status() == Some(status),
        MessageView::destination_down_response(mac, status).mac() == Some(mac),
        MessageView::destination_down_response(mac, status).status() == Some(status),
        MessageView::session_termination(status).status() == Some(status),
{
    let items = seq![DataItemView::MacAddress(mac), status_item(status)];
    lemma_second_status(items, mac, status);
    assert(MessageView::session_termination(status).data_items[0] == status_item(status));
}

/// Either side reads out of the other's initialization the heartbeat interval
/// and the extensions that were written into it, and the modem's answer is
/// success.
pub proof fn law_initialization_is_read(config: SessionConfigView)
    ensures
        session_initialization(config).heartbeat_interval() == Some(config.heartbeat_interval()),
        session_initialization(config).extensions() == Some(config.advertised_extensions),
        session_initialization_response(config).status() == Some(StatusCode(StatusCode::SUCCESS)),
        session_initialization_response(config).heartbeat_interval() == Some(
            config.heartbeat_interval(),
        ),
        session_initialization_response(config).extensions() == Some(config.advertised_extensions),
{
    reveal_with_fuel(first_picked, 5);
    let init = session_initialization(config).data_items;
    assert(init.drop_first()[0] == init[1]);
    assert(init.drop_first().drop_first()[0] == init[2]);
    let response = session_initialization_response(config).data_items;
    assert(response.drop_first()[0] == response[1]);
    assert(response.drop_first().drop_first()[0] == response[2]);
    assert(response.drop_first().drop_first().drop_first()[0] == response[3]);
}

/// A heartbeat interval of whole milliseconds, at least a second, that 32 bits
/// can count.
proof fn lemma_interval_is_exact(config: SessionConfigView)
    ensures
        DataItemView::HeartbeatInterval(config.heartbeat_interval()).exact(),
        DataItemView::HeartbeatInterval(config.heartbeat_interval()).refusal() is None,
{
    let item = DataItemView::HeartbeatInterval(config.heartbeat_interval());
    crate::proto::wire::lemma_be_len(layout::millis(config.heartbeat_interval()), 4);
    assert(item.value().len() == 4);
}

/// Both initializations arrive as they were sent, whatever the configured
/// interval is, as long as description and extension list fit into a message.
pub proof fn law_initialization_survives_the_wire(config: SessionConfigView)
    ensures
        session_initialization(config).wire_form() matches Ok(octets) ==> MessageView::read(octets)
            == Ok::<MessageView, CodecErrorView>(session_initialization(config)),
        session_initialization_response(config).wire_form() matches Ok(octets)
            ==> MessageView::read(octets) == Ok::<MessageView, CodecErrorView>(
            session_initialization_response(config),
        ),
{
    lemma_interval_is_exact(config);
    let init = session_initialization(config);
    if let Ok(octets) = init.wire_form() {
        laws::law_message_roundtrip(init, Seq::empty());
        assert(octets + Seq::<u8>::empty() =~= octets);
    }
    let response = session_initialization_response(config);
    if let Ok(octets) = response.wire_form() {
        laws::law_message_roundtrip(response, Seq::empty());
        assert(octets + Seq::<u8>::empty() =~= octets);
    }
}

} // verus!
