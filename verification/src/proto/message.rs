//! Session messages.

use vstd::prelude::*;
use crate::proto::data_item::{DataItem, DataItemView};
use crate::proto::data_item;
use crate::proto::ids::MessageType;

verus! {

/// A message of the TCP session.
///
/// Wire format:
/// `message_type: u16 || length: u16 || <data items>`
///
/// Unlike signals, messages do not carry the ASCII `DLEP` prefix.
#[derive(Debug)]
pub struct Message {
    pub message_type: MessageType,
    pub data_items: Vec<DataItem>,
}

/// What a message says.
#[verifier::ext_equal]
pub struct MessageView {
    pub message_type: MessageType,
    pub data_items: Seq<DataItemView>,
}

impl View for Message {
    type V = MessageView;

    open spec fn view(&self) -> MessageView {
        MessageView {
            message_type: self.message_type,
            data_items: data_item::item_views(self.data_items@),
        }
    }
}

impl Clone for Message {
    fn clone(&self) -> (r: Self)
        ensures
            r@ == self@,
    {
        Message {
            message_type: self.message_type,
            data_items: data_item::clone_items(&self.data_items),
        }
    }
}

impl MessageView {
    /// A message of type `code` with the given data items.
    pub open spec fn of(code: u16, data_items: Seq<DataItemView>) -> Self {
        MessageView { message_type: MessageType(code), data_items }
    }
}

impl Message {
    /// A message without data items.
    pub fn new(message_type: MessageType) -> (r: Self)
        ensures
            r@ == (MessageView { message_type, data_items: Seq::empty() }),
    {
        Message { message_type, data_items: Vec::new() }
    }

    /// The message with `item` behind its other data items.
    pub fn with_item(self, item: DataItem) -> (r: Self)
        ensures
            r@ == (MessageView {
                message_type: self@.message_type,
                data_items: self@.data_items.push(item@),
            }),
    {
        let mut data_items = self.data_items;
        data_items.push(item);
        let r = Message { message_type: self.message_type, data_items };
        assert(r@.data_items =~= self@.data_items.push(item@));
        r
    }
}

} // verus!
