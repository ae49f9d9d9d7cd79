//! Framing: messages in a byte stream, signals in datagrams.

use vstd::prelude::*;
use bytes::BytesMut;
use crate::proto::buffer;
use crate::proto::codec;
use crate::proto::error::{CodecError, CodecErrorView};
use crate::proto::laws;
use crate::proto::layout;
use crate::proto::layout::MESSAGE_HEADER_LEN;
use crate::proto::message::{Message, MessageView};
use crate::proto::signal::{Signal, SignalView};
use crate::proto::wire;

verus! {

/// Octets of the longest message: four of header, and as many of body as 16
/// bits can count.
pub const MAX_MESSAGE_LEN: usize = 65_539;

/// Takes messages off a byte stream and puts them onto one.
#[derive(Debug)]
pub struct MessageCodec;

/// Takes signals out of datagrams and puts them into them.
#[derive(Debug)]
pub struct SignalCodec;

impl Default for MessageCodec {
    fn default() -> (r: Self) {
        MessageCodec
    }
}

impl Default for SignalCodec {
    fn default() -> (r: Self) {
        SignalCodec
    }
}

/// The length of the frame at the head of a stream: header, and as many octets
/// as the header says. `None` as long as the frame has not all arrived.
pub open spec fn frame_len(stream: Seq<u8>) -> Option<nat> {
    if stream.len() < MESSAGE_HEADER_LEN {
        None
    } else {
        let total = MESSAGE_HEADER_LEN + wire::from_be(stream.subrange(2, 4));
        if stream.len() < total {
            None
        } else {
            Some(total as nat)
        }
    }
}

impl MessageCodec {
    /// The next message of the stream, taken out of `src`; `None`, with `src`
    /// as it was, when it has not all arrived. A frame that is no message is
    /// taken out too.
    pub fn decode(&mut self, src: &mut BytesMut) -> (r: Result<Option<Message>, CodecError>)
        ensures
            match frame_len(buffer::buffer_content(*old(src))) {
                None => r matches Ok(x) && x is None && buffer::buffer_content(*final(src))
                    == buffer::buffer_content(*old(src)),
                Some(total) => {
                    &&& buffer::buffer_content(*final(src)) == buffer::buffer_content(
                        *old(src),
                    ).skip(total as int)
                    &&& match MessageView::read(
                        buffer::buffer_content(*old(src)).take(total as int),
                    ) {
                        Ok(m) => r matches Ok(x) && x matches Some(y) && y@ == m,
                        Err(e) => r matches Err(x) && x@ == e,
                    }
                },
            },
    {
        let ghost stream = buffer::buffer_content(*src);
        let available: usize = src.len();
        if available < MESSAGE_HEADER_LEN {
            return Ok(None);
        }
        let head = buffer::buffer_slice(src);
        let declared: usize = wire::u16_from_be(head[2], head[3]) as usize;
        proof {
            assert(stream.subrange(2, 4) =~= seq![stream[2], stream[3]]);
        }
        let total: usize = MESSAGE_HEADER_LEN + declared;
        if available < total {
            src.reserve(total - available);
            return Ok(None);
        }
        let frame = src.split_to(total).freeze();
        match Message::decode(frame) {
            Ok(message) => Ok(Some(message)),
            Err(e) => Err(e),
        }
    }

    /// Put a message behind what `dst` holds. When the message has no wire
    /// form, `dst` is left as it is.
    pub fn encode(&mut self, item: Message, dst: &mut BytesMut) -> (r: Result<(), CodecError>)
        requires
            buffer::buffer_content(*old(dst)).len() + MAX_MESSAGE_LEN <= isize::MAX,
        ensures
            match item@.wire_form() {
                Ok(octets) => r is Ok && buffer::buffer_content(*final(dst))
                    == buffer::buffer_content(*old(dst)) + octets,
                Err(e) => r matches Err(x) && x@ == e && buffer::buffer_content(*final(dst))
                    == buffer::buffer_content(*old(dst)),
            },
    {
        let octets = match item.encode() {
            Ok(octets) => octets,
            Err(e) => {
                return Err(e);
            },
        };
        proof {
            lemma_wire_form_len(item@);
        }
        dst.reserve(octets.len());
        dst.extend_from_slice(buffer::buffer_slice(&octets));
        Ok(())
    }
}

impl SignalCodec {
    /// The signal in a complete datagram.
    pub fn decode_datagram(&self, buf: BytesMut) -> (r: Result<Signal, CodecError>)
        ensures
            codec::agrees(r, SignalView::read(buffer::buffer_content(buf))),
    {
        Signal::decode(buf.freeze())
    }

    /// The datagram of a signal.
    pub fn encode_datagram(&self, signal: &Signal) -> (r: Result<BytesMut, CodecError>)
        ensures
            match signal@.wire_form() {
                Ok(octets) => r matches Ok(b) && buffer::buffer_content(b) == octets,
                Err(e) => r matches Err(x) && x@ == e,
            },
    {
        signal.encode()
    }
}

/// A message on the wire is at most a header and what 16 bits can count.
proof fn lemma_wire_form_len(message: MessageView)
    ensures
        message.wire_form() matches Ok(octets) ==> {
            &&& octets.len() == MESSAGE_HEADER_LEN + layout::body_of(message.data_items).len()
            &&& octets.len() <= MAX_MESSAGE_LEN
        },
{
    wire::lemma_be_len(message.message_type.0 as nat, 2);
    wire::lemma_be_len(layout::body_of(message.data_items).len(), 2);
}

/// The frame of a message is recognised at the head of a stream, whatever
/// follows.
proof fn lemma_frame_of_message(message: MessageView, octets: Seq<u8>, rest: Seq<u8>)
    requires
        message.wire_form() == Ok::<Seq<u8>, CodecErrorView>(octets),
    ensures
        frame_len(octets + rest) == Some(octets.len()),
{
    let body = layout::body_of(message.data_items);
    lemma_wire_form_len(message);
    wire::lemma_widths();
    wire::lemma_be_len(message.message_type.0 as nat, 2);
    wire::lemma_be_len(body.len(), 2);
    wire::lemma_from_be_of_be(body.len(), 2);
    assert((octets + rest).subrange(2, 4) =~= wire::be(body.len(), 2));
}

/// Messages come off a stream as they were put onto it: with one at the head,
/// whose wire form says all of it, decoding takes exactly its octets and gives
/// it back.
pub proof fn law_stream_roundtrip(message: MessageView, octets: Seq<u8>, rest: Seq<u8>)
    requires
        message.wire_form() == Ok::<Seq<u8>, CodecErrorView>(octets),
        forall|i: int|
            0 <= i < message.data_items.len() ==> (#[trigger] message.data_items[i]).exact(),
    ensures
        frame_len(octets + rest) == Some(octets.len()),
        MessageView::read((octets + rest).take(octets.len() as int)) == Ok::<
            MessageView,
            CodecErrorView,
        >(message),
        (octets + rest).skip(octets.len() as int) == rest,
{
    lemma_frame_of_message(message, octets, rest);
    laws::law_message_roundtrip(message, Seq::empty());
    assert(octets + Seq::<u8>::empty() =~= octets);
    assert((octets + rest).take(octets.len() as int) =~= octets);
    assert((octets + rest).skip(octets.len() as int) =~= rest);
}

/// A message that has not all arrived is waited for: no part of it is taken
/// for a frame.
pub proof fn law_partial_frame_waits(message: MessageView, octets: Seq<u8>, n: int)
    requires
        message.wire_form() == Ok::<Seq<u8>, CodecErrorView>(octets),
        0 <= n < octets.len(),
    ensures
        frame_len(octets.take(n)) is None,
{
    lemma_frame_of_message(message, octets, Seq::empty());
    assert(octets + Seq::<u8>::empty() =~= octets);
    if n >= MESSAGE_HEADER_LEN {
        assert(octets.take(n).subrange(2, 4) =~= octets.subrange(2, 4));
    }
}

/// What a stream says, frame after frame, up to the first that has not all
/// arrived.
pub open spec fn frames(stream: Seq<u8>) -> Seq<Result<MessageView, CodecErrorView>>
    decreases stream.len(),
{
    match frame_len(stream) {
        None => Seq::empty(),
        Some(total) => seq![MessageView::read(stream.take(total as int))] + frames(
            stream.skip(total as int),
        ),
    }
}

/// Whether a message has a wire form, and one that says all of it.
#[verifier::opaque]
pub open spec fn travels(message: MessageView) -> bool {
    &&& message.wire_form() is Ok
    &&& forall|i: int|
        0 <= i < message.data_items.len() ==> (#[trigger] message.data_items[i]).exact()
}

/// The octets of messages one behind the other.
pub open spec fn stream_of(messages: Seq<MessageView>) -> Seq<u8>
    decreases messages.len(),
{
    if messages.len() == 0 {
        Seq::empty()
    } else {
        messages[0].wire_form()->Ok_0 + stream_of(messages.drop_first())
    }
}

/// A message at the head of a stream is its first frame.
proof fn lemma_first_frame(message: MessageView, rest: Seq<u8>)
    requires
        travels(message),
    ensures
        frames(message.wire_form()->Ok_0 + rest) == seq![
            Ok::<MessageView, CodecErrorView>(message),
        ] + frames(rest),
{
    reveal(travels);
    law_stream_roundtrip(message, message.wire_form()->Ok_0, rest);
}

/// Messages arrive in the order in which they were sent, each as it was sent,
/// and nothing between them; a part of the next one changes nothing of that.
pub proof fn law_messages_arrive_in_order(messages: Seq<MessageView>, part: Seq<u8>)
    requires
        forall|i: int| 0 <= i < messages.len() ==> travels(#[trigger] messages[i]),
        frame_len(part) is None,
    ensures
        frames(stream_of(messages) + part) == Seq::new(
            messages.len(),
            |i: int| Ok::<MessageView, CodecErrorView>(messages[i]),
        ),
    decreases messages.len(),
{
    let arrived = Seq::new(
        messages.len(),
        |i: int| Ok::<MessageView, CodecErrorView>(messages[i]),
    );
    if messages.len() == 0 {
        assert(stream_of(messages) + part =~= part);
        assert(frames(part) =~= arrived);
    } else {
        let octets = messages[0].wire_form()->Ok_0;
        let later = messages.drop_first();
        let rest = stream_of(later) + part;
        assert forall|i: int| 0 <= i < later.len() implies travels(#[trigger] later[i]) by {
            assert(travels(messages[i + 1]));
        }
        law_messages_arrive_in_order(later, part);
        lemma_first_frame(messages[0], rest);
        assert(stream_of(messages) + part =~= octets + rest);
        assert(arrived =~= seq![Ok::<MessageView, CodecErrorView>(messages[0])] + Seq::new(
            later.len(),
            |i: int| Ok::<MessageView, CodecErrorView>(later[i]),
        ));
    }
}

} // verus!
