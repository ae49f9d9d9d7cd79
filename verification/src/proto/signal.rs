//! Discovery signals.

use vstd::prelude::*;
use crate::proto::data_item::{DataItem, DataItemView};
use crate::proto::data_item;
use crate::proto::ids::SignalType;

verus! {

/// A UDP discovery signal: Peer Discovery or Peer Offer.
///
/// Wire format:
/// `DLEP (4 octets) || signal_type: u16 || length: u16 || <data items>`
#[derive(Debug)]
pub struct Signal {
    pub signal_type: SignalType,
    pub data_items: Vec<DataItem>,
}

/// What a signal says.
#[verifier::ext_equal]
pub struct SignalView {
    pub signal_type: SignalType,
    pub data_items: Seq<DataItemView>,
}

impl View for Signal {
    type V = SignalView;

    open spec fn view(&self) -> SignalView {
        SignalView {
            signal_type: self.signal_type,
            data_items: data_item::item_views(self.data_items@),
        }
    }
}

impl Clone for Signal {
    fn clone(&self) -> (r: Self)
        ensures
            r@ == self@,
    {
        Signal {
            signal_type: self.signal_type,
            data_items: data_item::clone_items(&self.data_items),
        }
    }
}

impl SignalView {
    /// A signal of type `code` with the given data items.
    pub open spec fn of(code: u16, data_items: Seq<DataItemView>) -> Self {
        SignalView { signal_type: SignalType(code), data_items }
    }
}

impl Signal {
    /// A signal without data items.
    pub fn new(signal_type: SignalType) -> (r: Self)
        ensures
            r@ == (SignalView { signal_type, data_items: Seq::empty() }),
    {
        Signal { signal_type, data_items: Vec::new() }
    }

    /// The signal with `item` behind its other data items.
    pub fn with_item(self, item: DataItem) -> (r: Self)
        ensures
            r@ == (SignalView {
                signal_type: self@.signal_type,
                data_items: self@.data_items.push(item@),
            }),
    {
        let mut data_items = self.data_items;
        data_items.push(item);
        let r = Signal { signal_type: self.signal_type, data_items };
        assert(r@.data_items =~= self@.data_items.push(item@));
        r
    }
}

} // verus!
