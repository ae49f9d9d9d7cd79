//! What extensions announce, hear and take.

use vstd::prelude::*;
use crate::ext::{
    ascending, change_of, in_some, is_core_message, is_shared, is_union, kept, not_handled,
    ExtHandled, Role, StateChange,
};
use crate::fsm::events::EmittedEventView;
use crate::proto::data_item::DataItem;
use crate::proto::ids::{ExtensionId, MessageType};

verus! {

/// The protocol's own message types are 1 to 16; all others belong to
/// extensions.
pub proof fn law_core_messages(message_type: MessageType, answer: bool)
    requires
        call_ensures(is_core_message, (message_type,), answer),
    ensures
        answer <==> 1 <= message_type.0 <= 16,
{
}

/// A session is on one side and not on the other.
pub proof fn law_one_side(role: Role, router: bool, modem: bool)
    requires
        call_ensures(Role::is_router, (role,), router),
        call_ensures(Role::is_modem, (role,), modem),
    ensures
        router != modem,
        router <==> role == Role::Router,
{
}

/// Extensions hear of sessions that come up and go down, and of destinations:
/// those that are up with success and the metrics that were reported, those that
/// are down with the reason and no metrics. They hear nothing else.
pub proof fn law_extensions_hear(event: EmittedEventView)
    ensures
        match event {
            EmittedEventView::SessionUp { .. } => change_of(event) matches Some(change)
                && change matches StateChange::Session(state) && state.up,
            EmittedEventView::SessionDown(_) => change_of(event) matches Some(change)
                && change matches StateChange::Session(state) && !state.up,
            EmittedEventView::DestinationUp { mac, metrics, .. } => change_of(event) matches Some(
                change,
            ) && change matches StateChange::Destination(about, state) && about == mac && state.up
                && state.last_status.0 == 0 && state.metrics == Some(metrics),
            EmittedEventView::DestinationDown { mac, reason } => change_of(event) matches Some(
                change,
            ) && change matches StateChange::Destination(about, state) && about == mac && !state.up
                && state.last_status == reason && state.metrics is None,
            _ => change_of(event) is None,
        },
{
}

/// Exactly what is flagged is kept, in order: one thing more is kept behind the
/// others if its flag is set.
pub proof fn law_flagged_are_kept<T>(items: Seq<T>, flags: Seq<bool>, item: T, flag: bool)
    requires
        items.len() == flags.len(),
    ensures
        kept(Seq::<T>::empty(), Seq::empty()).len() == 0,
        kept(items.push(item), flags.push(flag)) == if flag {
            kept(items, flags).push(item)
        } else {
            kept(items, flags)
        },
{
    assert(items.push(item).drop_last() =~= items);
    assert(flags.push(flag).drop_last() =~= flags);
}

/// Exactly what no extension took is left, in order: one data item more is left
/// behind the others unless it was handled.
pub proof fn law_handled_are_hidden(
    offered: Seq<(DataItem, ExtHandled)>,
    item: DataItem,
    answer: ExtHandled,
)
    ensures
        not_handled(Seq::empty()).len() == 0,
        not_handled(offered.push((item, answer))) == match answer {
            ExtHandled::Handled => not_handled(offered),
            ExtHandled::Passthrough => not_handled(offered).push(item),
        },
{
    reveal(Seq::filter);
    assert(offered.push((item, answer)).drop_last() =~= offered);
    assert(not_handled(Seq::empty()) =~= Seq::<DataItem>::empty());
    assert(not_handled(offered.push((item, answer))) =~= match answer {
        ExtHandled::Handled => not_handled(offered),
        ExtHandled::Passthrough => not_handled(offered).push(item),
    });
}

/// What is announced holds an id exactly if some extension announces it, and
/// what is in use exactly if the peer does as well; either in ascending order
/// and without repetition.
pub proof fn law_announced_and_in_use(
    union: Seq<ExtensionId>,
    shared: Seq<ExtensionId>,
    lists: Seq<Seq<ExtensionId>>,
    remote: Seq<ExtensionId>,
    id: ExtensionId,
    i: int,
    j: int,
)
    requires
        is_union(union, lists),
        is_shared(shared, lists, remote),
    ensures
        union.contains(id) <==> exists|k: int|
            0 <= k < lists.len() && (#[trigger] lists[k]).contains(id),
        shared.contains(id) <==> remote.contains(id) && exists|k: int|
            0 <= k < lists.len() && (#[trigger] lists[k]).contains(id),
        0 <= i < j < union.len() ==> union[i].0 < union[j].0,
        0 <= i < j < shared.len() ==> shared[i].0 < shared[j].0,
{
    assert(union.contains(id) <==> in_some(lists, id));
    assert(shared.contains(id) <==> in_some(lists, id) && remote.contains(id));
    assert(ascending(union) && ascending(shared));
}

} // verus!
