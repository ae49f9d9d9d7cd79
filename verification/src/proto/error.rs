//! What can go wrong between octets and values.

use vstd::prelude::*;
use crate::proto::ids::{DataItemType, MessageType, SignalType};

verus! {

/// `std::string::FromUtf8Error`, which says where a text stops being UTF-8.
#[verifier::external_type_specification]
#[verifier::external_body]
pub struct ExFromUtf8Error(std::string::FromUtf8Error);

/// The octets that a `FromUtf8Error` holds, as its `as_bytes` gives them.
pub uninterp spec fn refused_octets(e: std::string::FromUtf8Error) -> Seq<u8>;

/// `String::from_utf8` takes valid UTF-8 and gives the text it encodes; every
/// other sequence of octets is an error, which holds them.
pub assume_specification[ String::from_utf8 ](vec: Vec<u8>) -> (r: Result<
    String,
    std::string::FromUtf8Error,
>)
    ensures
        r is Ok <==> vstd::utf8::valid_utf8(vec@),
        r matches Ok(text) ==> text@ == vstd::utf8::decode_utf8(vec@),
        r matches Err(e) ==> refused_octets(e) == vec@,
;

/// What lengths a data item may have on the wire. Several data items are not
/// of one width: connection points are 5 *or* 7 octets, status and peer type
/// are at least 1, extensions supported is a multiple of 2.
#[derive(Clone, Copy, Debug, PartialEq, Eq)]
pub enum ExpectedLen {
    /// Length must be exactly this value.
    Exact(usize),
    /// Length must be at least this value.
    AtLeast(usize),
    /// Length must be one of the listed values.
    OneOf(&'static [usize]),
    /// Length must be a non-negative multiple of this value.
    Multiple(usize),
}

#[derive(Debug)]
pub enum CodecError {
    /// The buffer is shorter than what is to be read from it.
    Truncated { needed: usize, have: usize },
    /// A signal does not begin with the signal prefix.
    MissingSignalPrefix,
    /// A header declares more octets than follow it.
    LengthMismatch { declared: usize, remaining: usize },
    UnknownSignalType(SignalType),
    UnknownMessageType(MessageType),
    UnknownDataItemType(DataItemType),
    InvalidDataItemLength { kind: DataItemType, expected: ExpectedLen, got: usize },
    /// A text field is not UTF-8.
    InvalidUtf8(std::string::FromUtf8Error),
    OutOfRange { field: &'static str, value: u64 },
}

#[verifier::ext_equal]
pub enum ExpectedLenView {
    Exact(nat),
    AtLeast(nat),
    OneOf(Seq<usize>),
    Multiple(nat),
}

impl View for ExpectedLen {
    type V = ExpectedLenView;

    open spec fn view(&self) -> ExpectedLenView {
        match *self {
            ExpectedLen::Exact(n) => ExpectedLenView::Exact(n as nat),
            ExpectedLen::AtLeast(n) => ExpectedLenView::AtLeast(n as nat),
            ExpectedLen::OneOf(ns) => ExpectedLenView::OneOf(ns@),
            ExpectedLen::Multiple(n) => ExpectedLenView::Multiple(n as nat),
        }
    }
}

#[verifier::ext_equal]
pub enum CodecErrorView {
    Truncated { needed: nat, have: nat },
    MissingSignalPrefix,
    LengthMismatch { declared: nat, remaining: nat },
    UnknownSignalType(SignalType),
    UnknownMessageType(MessageType),
    UnknownDataItemType(DataItemType),
    InvalidDataItemLength { kind: DataItemType, expected: ExpectedLenView, got: nat },
    InvalidUtf8 { octets: Seq<u8> },
    OutOfRange { field: Seq<char>, value: u64 },
}

impl View for CodecError {
    type V = CodecErrorView;

    open spec fn view(&self) -> CodecErrorView {
        match *self {
            CodecError::Truncated { needed, have } => CodecErrorView::Truncated {
                needed: needed as nat,
                have: have as nat,
            },
            CodecError::MissingSignalPrefix => CodecErrorView::MissingSignalPrefix,
            CodecError::LengthMismatch { declared, remaining } => CodecErrorView::LengthMismatch {
                declared: declared as nat,
                remaining: remaining as nat,
            },
            CodecError::UnknownSignalType(t) => CodecErrorView::UnknownSignalType(t),
            CodecError::UnknownMessageType(t) => CodecErrorView::UnknownMessageType(t),
            CodecError::UnknownDataItemType(t) => CodecErrorView::UnknownDataItemType(t),
            CodecError::InvalidDataItemLength { kind, expected, got } => {
                CodecErrorView::InvalidDataItemLength {
                    kind,
                    expected: expected@,
                    got: got as nat,
                }
            },
            CodecError::InvalidUtf8(e) => CodecErrorView::InvalidUtf8 {
                octets: refused_octets(e),
            },
            CodecError::OutOfRange { field, value } => CodecErrorView::OutOfRange {
                field: field@,
                value,
            },
        }
    }
}

} // verus!
