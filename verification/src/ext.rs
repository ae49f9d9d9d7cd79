//! Extensions: what they announce, and which of them take part in a session.

use vstd::prelude::*;
use crate::fsm::events::{EmittedEvent, EmittedEventView};
use crate::proto::data_item::DataItem;
use crate::proto::ids::{ExtensionId, MessageType};
use crate::proto::mac::MacAddress;
use crate::proto::metrics::LinkMetrics;
use crate::proto::status::StatusCode;

verus! {

/// Session handle that the runtime hands out. Each daemon counts for itself.
#[derive(Clone, Copy, Debug, PartialEq, Eq, Structural, Hash, PartialOrd, Ord)]
pub struct SessionId(pub u64);

/// Side of the protocol that a session is on.
#[derive(Clone, Copy, Debug, PartialEq, Eq, Structural, Hash)]
pub enum Role {
    Router,
    Modem,
}

impl Role {
    pub fn is_router(self) -> (r: bool)
        ensures
            r == (self is Router),
    {
        matches!(self, Role::Router)
    }

    pub fn is_modem(self) -> (r: bool)
        ensures
            r == (self is Modem),
    {
        matches!(self, Role::Modem)
    }
}

/// What an extension did with something that the core does not know.
#[derive(Clone, Copy, Debug, PartialEq, Eq, Structural)]
pub enum ExtHandled {
    Handled,
    Passthrough,
}

/// State of a session, as extensions see it.
#[derive(Clone, Copy, Debug)]
pub struct SessionStateSnapshot {
    pub up: bool,
}

/// State of a destination, as extensions see it.
#[derive(Clone, Copy, Debug)]
pub struct DestinationStateSnapshot {
    pub up: bool,
    /// Success when it is up; when it is down, the reason that was given.
    pub last_status: StatusCode,
    /// Reported metrics when it is up; `None` when it is down.
    pub metrics: Option<LinkMetrics>,
}

/// A change that extensions hear of.
#[derive(Clone, Copy, Debug)]
pub enum StateChange {
    Session(SessionStateSnapshot),
    Destination(MacAddress, DestinationStateSnapshot),
}

/// What a session's event is to extensions: a session that comes up or goes
/// down, and so for destinations. A destination that is up has the metrics that
/// were reported; one that is down has the reason that was given.
pub open spec fn change_of(event: EmittedEventView) -> Option<StateChange> {
    match event {
        EmittedEventView::SessionUp { .. } => Some(
            StateChange::Session(SessionStateSnapshot { up: true }),
        ),
        EmittedEventView::SessionDown(_) => Some(
            StateChange::Session(SessionStateSnapshot { up: false }),
        ),
        EmittedEventView::DestinationUp { mac, metrics, .. } => Some(
            StateChange::Destination(
                mac,
                DestinationStateSnapshot {
                    up: true,
                    last_status: StatusCode(StatusCode::SUCCESS),
                    metrics: Some(metrics),
                },
            ),
        ),
        EmittedEventView::DestinationDown { mac, reason } => Some(
            StateChange::Destination(
                mac,
                DestinationStateSnapshot { up: false, last_status: reason, metrics: None },
            ),
        ),
        EmittedEventView::DestinationUpdate { .. } => None,
        EmittedEventView::PeerDiscovered { .. } => None,
    }
}

/// The change that an event is to extensions, if it is one.
pub fn state_change(event: &EmittedEvent) -> (r: Option<StateChange>)
    ensures
        r == change_of(event@),
{
    match event {
        EmittedEvent::SessionUp { .. } => Some(
            StateChange::Session(SessionStateSnapshot { up: true }),
        ),
        EmittedEvent::SessionDown(_) => Some(
            StateChange::Session(SessionStateSnapshot { up: false }),
        ),
        EmittedEvent::DestinationUp { mac, metrics, .. } => Some(
            StateChange::Destination(
                *mac,
                DestinationStateSnapshot {
                    up: true,
                    last_status: StatusCode(StatusCode::SUCCESS),
                    metrics: Some(*metrics),
                },
            ),
        ),
        EmittedEvent::DestinationDown { mac, reason } => Some(
            StateChange::Destination(
                *mac,
                DestinationStateSnapshot { up: false, last_status: *reason, metrics: None },
            ),
        ),
        EmittedEvent::DestinationUpdate { .. } => None,
        EmittedEvent::PeerDiscovered { .. } => None,
    }
}

/// Whether a message type is one of the protocol's own. All others belong to
/// extensions.
pub fn is_core_message(message_type: MessageType) -> (r: bool)
    ensures
        r == (MessageType::SESSION_INITIALIZATION <= message_type.0 <= MessageType::HEARTBEAT),
{
    MessageType::SESSION_INITIALIZATION <= message_type.0 && message_type.0
        <= MessageType::HEARTBEAT
}

/// A plug-in. What it answers is its own affair: nothing below relies on two
/// calls giving the same answer.
pub trait DlepExtension: Sized {
    /// Extension ids that the plug-in announces.
    fn advertised_ids(&self) -> &[ExtensionId];

    /// Told what the peer announced; `false` opts out of the session.
    fn on_negotiated(&self, remote_ids: &[ExtensionId]) -> (r: bool)
        default_ensures
            r,
    {
        true
    }
}

/// The extension announced these ids when it was asked.
pub open spec fn announced<E: DlepExtension>(ext: E, ids: Seq<ExtensionId>) -> bool {
    exists|slice: &[ExtensionId]| #[trigger]
        call_ensures(E::advertised_ids, (&ext,), slice) && slice@ == ids
}

/// The extension gave this answer when it was told what the peer announced.
pub open spec fn answered<E: DlepExtension>(
    ext: E,
    remote: Seq<ExtensionId>,
    accepted: bool,
) -> bool {
    exists|slice: &[ExtensionId]| #[trigger]
        call_ensures(E::on_negotiated, (&ext, slice), accepted) && slice@ == remote
}

/// Strictly ascending: in order, and nothing twice.
pub open spec fn ascending(ids: Seq<ExtensionId>) -> bool {
    forall|i: int, j: int| 0 <= i < j < ids.len() ==> (#[trigger] ids[i]).0 < (#[trigger] ids[j]).0
}

/// Some list holds the id.
pub open spec fn in_some(lists: Seq<Seq<ExtensionId>>, id: ExtensionId) -> bool {
    exists|k: int| 0 <= k < lists.len() && (#[trigger] lists[k]).contains(id)
}

/// `ids` holds what the lists hold, in order and once each.
pub open spec fn is_union(ids: Seq<ExtensionId>, lists: Seq<Seq<ExtensionId>>) -> bool {
    &&& ascending(ids)
    &&& forall|id: ExtensionId| #[trigger] ids.contains(id) <==> in_some(lists, id)
}

/// `ids` holds what both the lists and `remote` hold, in order and once each.
pub open spec fn is_shared(
    ids: Seq<ExtensionId>,
    lists: Seq<Seq<ExtensionId>>,
    remote: Seq<ExtensionId>,
) -> bool {
    &&& ascending(ids)
    &&& forall|id: ExtensionId| #[trigger]
        ids.contains(id) <==> in_some(lists, id) && remote.contains(id)
}

/// The items whose flag is set, in order.
pub open spec fn kept<T>(items: Seq<T>, flags: Seq<bool>) -> Seq<T>
    decreases items.len(),
{
    if items.len() == 0 || flags.len() != items.len() {
        Seq::empty()
    } else {
        let front = kept(items.drop_last(), flags.drop_last());
        if flags.last() {
            front.push(items.last())
        } else {
            front
        }
    }
}

/// Add an id to an ascending list, which stays ascending.
pub fn insert_id(ids: &mut Vec<ExtensionId>, id: ExtensionId)
    requires
        ascending(old(ids)@),
    ensures
        ascending(final(ids)@),
        forall|x: ExtensionId| #[trigger]
            final(ids)@.contains(x) <==> old(ids)@.contains(x) || x == id,
{
    let ghost before = ids@;
    let mut i: usize = 0;
    while i < ids.len() && ids[i].0 < id.0
        invariant
            i <= ids@.len(),
            ids@ == before,
            forall|k: int| 0 <= k < i ==> (#[trigger] ids@[k]).0 < id.0,
        decreases ids.len() - i,
    {
        i = i + 1;
    }
    if i < ids.len() && ids[i].0 == id.0 {
        assert(before[i as int] == id);
        return ;
    }
    ids.insert(i, id);
    proof {
        assert(ids@ =~= before.insert(i as int, id));
        assert(ids@[i as int] == id);
        assert forall|x: ExtensionId| #[trigger]
            ids@.contains(x) <==> before.contains(x) || x == id by {
            if ids@.contains(x) {
                let k = ids@.index_of(x);
                if k < i {
                    assert(before[k] == x);
                } else if k > i {
                    assert(before[k - 1] == x);
                }
            }
            if before.contains(x) {
                let k = before.index_of(x);
                if k < i {
                    assert(ids@[k] == x);
                } else {
                    assert(ids@[k + 1] == x);
                }
            }
        }
    }
}

/// Add ids to an ascending list, which stays ascending.
pub fn insert_ids(ids: &mut Vec<ExtensionId>, more: &[ExtensionId])
    requires
        ascending(old(ids)@),
    ensures
        ascending(final(ids)@),
        forall|x: ExtensionId| #[trigger]
            final(ids)@.contains(x) <==> old(ids)@.contains(x) || more@.contains(x),
{
    let ghost before = ids@;
    let mut i: usize = 0;
    while i < more.len()
        invariant
            i <= more@.len(),
            ascending(ids@),
            forall|x: ExtensionId| #[trigger]
                ids@.contains(x) <==> before.contains(x) || more@.take(i as int).contains(x),
        decreases more.len() - i,
    {
        insert_id(ids, more[i]);
        proof {
            lemma_one_more(more@, i as int);
        }
        i = i + 1;
    }
    assert(more@.take(i as int) =~= more@);
}

fn contains_id(ids: &[ExtensionId], id: ExtensionId) -> (r: bool)
    ensures
        r == ids@.contains(id),
{
    let mut i: usize = 0;
    while i < ids.len()
        invariant
            i <= ids@.len(),
            forall|k: int| 0 <= k < i ==> ids@[k] != id,
        decreases ids.len() - i,
    {
        if ids[i] == id {
            assert(ids@[i as int] == id);
            return true;
        }
        i = i + 1;
    }
    false
}

/// Add those of `more` that are among `remote` to an ascending list, which stays
/// ascending.
pub fn insert_shared_ids(
    ids: &mut Vec<ExtensionId>,
    more: &[ExtensionId],
    remote: &[ExtensionId],
)
    requires
        ascending(old(ids)@),
    ensures
        ascending(final(ids)@),
        forall|x: ExtensionId| #[trigger]
            final(ids)@.contains(x) <==> old(ids)@.contains(x) || (more@.contains(x)
                && remote@.contains(x)),
{
    let ghost before = ids@;
    let mut i: usize = 0;
    while i < more.len()
        invariant
            i <= more@.len(),
            ascending(ids@),
            forall|x: ExtensionId| #[trigger]
                ids@.contains(x) <==> before.contains(x) || (more@.take(i as int).contains(x)
                    && remote@.contains(x)),
        decreases more.len() - i,
    {
        if contains_id(remote, more[i]) {
            insert_id(ids, more[i]);
        }
        proof {
            lemma_one_more(more@, i as int);
        }
        i = i + 1;
    }
    assert(more@.take(i as int) =~= more@);
}

/// A longer piece of a list holds one element more.
proof fn lemma_one_more(list: Seq<ExtensionId>, i: int)
    requires
        0 <= i < list.len(),
    ensures
        forall|x: ExtensionId| #[trigger]
            list.take(i + 1).contains(x) <==> list.take(i).contains(x) || x == list[i],
{
    let shorter = list.take(i);
    let longer = list.take(i + 1);
    assert(longer =~= shorter.push(list[i]));
    assert forall|x: ExtensionId| #[trigger] longer.contains(x) <==> shorter.contains(x) || x
        == list[i] by {
        if shorter.contains(x) {
            assert(longer[shorter.index_of(x)] == x);
        }
        assert(longer[i] == list[i]);
    }
}

/// One list more holds what it holds.
proof fn lemma_one_list_more(lists: Seq<Seq<ExtensionId>>, ids: Seq<ExtensionId>)
    ensures
        forall|id: ExtensionId| #[trigger]
            in_some(lists.push(ids), id) <==> in_some(lists, id) || ids.contains(id),
{
    let longer = lists.push(ids);
    assert forall|id: ExtensionId| #[trigger]
        in_some(longer, id) <==> in_some(lists, id) || ids.contains(id) by {
        if in_some(lists, id) {
            let k = choose|k: int| 0 <= k < lists.len() && lists[k].contains(id);
            assert(longer[k].contains(id));
        }
        if ids.contains(id) {
            assert(longer[lists.len() as int].contains(id));
        }
        if in_some(longer, id) {
            let k = choose|k: int| 0 <= k < longer.len() && longer[k].contains(id);
            if k < lists.len() {
                assert(lists[k].contains(id));
            }
        }
    }
}

/// The ids that a session uses: those that the extensions which take part and
/// the peer both announce, in order and once each. Each extension is asked
/// once.
pub fn ids_in_use<E: DlepExtension>(accepted: &Vec<E>, remote: &[ExtensionId]) -> (r: Vec<
    ExtensionId,
>)
    ensures
        exists|lists: Seq<Seq<ExtensionId>>|
            {
                &&& lists.len() == accepted@.len()
                &&& forall|k: int|
                    0 <= k < lists.len() ==> announced(accepted@[k], #[trigger] lists[k])
                &&& #[trigger] is_shared(r@, lists, remote@)
            },
{
    let mut out: Vec<ExtensionId> = Vec::new();
    let ghost mut lists: Seq<Seq<ExtensionId>> = Seq::empty();
    let mut i: usize = 0;
    while i < accepted.len()
        invariant
            i <= accepted@.len(),
            lists.len() == i,
            forall|k: int| 0 <= k < lists.len() ==> announced(accepted@[k], #[trigger] lists[k]),
            is_shared(out@, lists, remote@),
        decreases accepted.len() - i,
    {
        let ids = accepted[i].advertised_ids();
        insert_shared_ids(&mut out, ids, remote);
        proof {
            lemma_one_list_more(lists, ids@);
            lists = lists.push(ids@);
        }
        i = i + 1;
    }
    assert(is_shared(out@, lists, remote@));
    out
}

/// References to the items whose flag is set, in order.
pub fn keep_flagged<'a, T>(items: &'a Vec<T>, flags: &Vec<bool>) -> (r: Vec<&'a T>)
    requires
        items@.len() == flags@.len(),
    ensures
        r@ == kept(items@.as_ref(), flags@),
{
    let ghost refs = items@.as_ref();
    let mut r: Vec<&'a T> = Vec::new();
    let mut i: usize = 0;
    while i < items.len()
        invariant
            i <= items@.len(),
            items@.len() == flags@.len(),
            refs == items@.as_ref(),
            r@ == kept(refs.take(i as int), flags@.take(i as int)),
        decreases items.len() - i,
    {
        proof {
            assert(refs.take(i + 1).drop_last() =~= refs.take(i as int));
            assert(flags@.take(i + 1).drop_last() =~= flags@.take(i as int));
        }
        if flags[i] {
            r.push(&items[i]);
        }
        i = i + 1;
    }
    proof {
        assert(refs.take(i as int) =~= refs);
        assert(flags@.take(i as int) =~= flags@);
    }
    r
}

/// The data items that no extension took, in order.
pub open spec fn not_handled(offered: Seq<(DataItem, ExtHandled)>) -> Seq<DataItem> {
    offered.filter(|o: (DataItem, ExtHandled)| o.1 is Passthrough).map_values(
        |o: (DataItem, ExtHandled)| o.0,
    )
}

/// What is left for the core of the data items of a message, each with what the
/// extensions did with it: those that were handled are hidden, all others stay
/// in order.
pub fn left_for_core(offered: Vec<(DataItem, ExtHandled)>) -> (r: Vec<DataItem>)
    ensures
        r@ == not_handled(offered@),
{
    let mut r: Vec<DataItem> = Vec::new();
    proof {
        lemma_not_handled_step(offered@, 0);
    }
    for one in iter: offered.into_iter()
        invariant
            iter.seq() == offered@,
            r@ == not_handled(offered@.take(iter.index() as int)),
    {
        proof {
            lemma_not_handled_step(offered@, iter.index() as int);
        }
        let (item, handled) = one;
        if let ExtHandled::Passthrough = handled {
            r.push(item);
        }
    }
    assert(offered@.take(offered@.len() as int) =~= offered@);
    r
}

/// One data item more is left exactly when it was not handled.
proof fn lemma_not_handled_step(offered: Seq<(DataItem, ExtHandled)>, i: int)
    ensures
        not_handled(offered.take(0)) == Seq::<DataItem>::empty(),
        0 <= i < offered.len() ==> not_handled(offered.take(i + 1)) == if offered[i].1 is Passthrough {
            not_handled(offered.take(i)).push(offered[i].0)
        } else {
            not_handled(offered.take(i))
        },
{
    reveal(Seq::filter);
    assert(not_handled(offered.take(0)) =~= Seq::<DataItem>::empty());
    if 0 <= i < offered.len() {
        assert(offered.take(i + 1).drop_last() =~= offered.take(i));
        assert(not_handled(offered.take(i + 1)) =~= if offered[i].1 is Passthrough {
            not_handled(offered.take(i)).push(offered[i].0)
        } else {
            not_handled(offered.take(i))
        });
    }
}

/// What a session announces does not depend on who announces what, or in which
/// order they were registered: lists that hold the same ids have one union.
pub proof fn law_union_is_determined(
    a: Seq<ExtensionId>,
    b: Seq<ExtensionId>,
    lists: Seq<Seq<ExtensionId>>,
    others: Seq<Seq<ExtensionId>>,
)
    requires
        is_union(a, lists),
        is_union(b, others),
        forall|id: ExtensionId| #[trigger] in_some(lists, id) <==> in_some(others, id),
    ensures
        a == b,
{
    assert forall|id: ExtensionId| #[trigger] a.contains(id) <==> b.contains(id) by {
        assert(in_some(lists, id) <==> in_some(others, id));
    }
    lemma_ascending_determined(a, b);
}

/// Ascending lists with the same elements are the same.
proof fn lemma_ascending_determined(a: Seq<ExtensionId>, b: Seq<ExtensionId>)
    requires
        ascending(a),
        ascending(b),
        forall|id: ExtensionId| #[trigger] a.contains(id) <==> b.contains(id),
    ensures
        a == b,
    decreases a.len(),
{
    if a.len() == 0 {
        if b.len() > 0 {
            assert(b.contains(b[0]));
            assert(a.contains(b[0]));
        }
    } else {
        assert(a.contains(a.last()));
        assert(b.contains(b.last()));
        assert(a.contains(b.last()));
        assert(a.last() == b.last());
        let shorter = a.drop_last();
        let other = b.drop_last();
        assert forall|id: ExtensionId| #[trigger] shorter.contains(id) <==> other.contains(id) by {
            if shorter.contains(id) {
                let k = shorter.index_of(id);
                assert(a[k] == id);
                assert(a[k].0 < a.last().0);
                assert(a.contains(id));
                let m = b.index_of(id);
                assert(other[m] == id);
            }
            if other.contains(id) {
                let k = other.index_of(id);
                assert(b[k] == id);
                assert(b[k].0 < b.last().0);
                assert(a.contains(id));
                let m = a.index_of(id);
                assert(shorter[m] == id);
            }
        }
        lemma_ascending_determined(shorter, other);
        assert(a =~= shorter.push(a.last()));
        assert(b =~= other.push(b.last()));
    }
}

/// The extensions of a daemon.
#[derive(Clone)]
pub struct ExtensionRegistry<E> {
    extensions: Vec<E>,
}

impl<E> View for ExtensionRegistry<E> {
    type V = Seq<E>;

    closed spec fn view(&self) -> Seq<E> {
        self.extensions@
    }
}

impl<E> Default for ExtensionRegistry<E> {
    fn default() -> (r: Self)
        ensures
            r@ == Seq::<E>::empty(),
    {
        ExtensionRegistry { extensions: Vec::new() }
    }
}

impl<E: DlepExtension> ExtensionRegistry<E> {
    pub fn new() -> (r: Self)
        ensures
            r@ == Seq::<E>::empty(),
    {
        ExtensionRegistry::default()
    }

    pub fn register(&mut self, ext: E)
        ensures
            final(self)@ == old(self)@.push(ext),
    {
        self.extensions.push(ext);
    }

    /// Everything that the extensions announce, in order and once each.
    pub fn advertised(&self) -> (r: Vec<ExtensionId>)
        ensures
            exists|lists: Seq<Seq<ExtensionId>>|
                {
                    &&& lists.len() == self@.len()
                    &&& forall|k: int|
                        0 <= k < lists.len() ==> announced(self@[k], #[trigger] lists[k])
                    &&& #[trigger] is_union(r@, lists)
                },
    {
        let mut out: Vec<ExtensionId> = Vec::new();
        let ghost mut lists: Seq<Seq<ExtensionId>> = Seq::empty();
        let mut i: usize = 0;
        while i < self.extensions.len()
            invariant
                i <= self.extensions@.len(),
                lists.len() == i,
                forall|k: int|
                    0 <= k < lists.len() ==> announced(self.extensions@[k], #[trigger] lists[k]),
                is_union(out@, lists),
            decreases self.extensions.len() - i,
        {
            let ids = self.extensions[i].advertised_ids();
            insert_ids(&mut out, ids);
            proof {
                lemma_one_list_more(lists, ids@);
                lists = lists.push(ids@);
            }
            i = i + 1;
        }
        assert(is_union(out@, lists));
        out
    }

    /// The extensions that take part in a session with a peer that announced
    /// `remote`, in the order of registration. Each extension is asked once.
    pub fn negotiate(&self, remote: &[ExtensionId]) -> (r: Vec<&E>)
        ensures
            exists|flags: Seq<bool>|
                {
                    &&& flags.len() == self@.len()
                    &&& forall|k: int|
                        0 <= k < flags.len() ==> answered(self@[k], remote@, #[trigger] flags[k])
                    &&& r@ == #[trigger] kept(self@.as_ref(), flags)
                },
    {
        let mut flags: Vec<bool> = Vec::new();
        let mut i: usize = 0;
        while i < self.extensions.len()
            invariant
                i <= self.extensions@.len(),
                flags@.len() == i,
                forall|k: int|
                    0 <= k < flags@.len() ==> answered(
                        self.extensions@[k],
                        remote@,
                        #[trigger] flags@[k],
                    ),
            decreases self.extensions.len() - i,
        {
            let accepted = self.extensions[i].on_negotiated(remote);
            assert(answered(self.extensions@[i as int], remote@, accepted));
            flags.push(accepted);
            i = i + 1;
        }
        let r = keep_flagged(&self.extensions, &flags);
        assert(r@ == kept(self@.as_ref(), flags@));
        r
    }

    /// All extensions, in the order of registration.
    pub fn iter(&self) -> (r: &[E])
        ensures
            r@ == self@,
    {
        self.extensions.as_slice()
    }
}

} // verus!
