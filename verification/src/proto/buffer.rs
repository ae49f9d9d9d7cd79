//! Octet buffers of the `bytes` crate.
//!
//! `Bytes` and `BytesMut` are held to what they contain: `bytes_content` and
//! `buffer_content` name that sequence, and every operation below says what it
//! does to it. Running out of memory is not part of any of these contracts, nor
//! is an allocation that grows past the address space because octets that were
//! taken out still lie in front of the content.

use vstd::prelude::*;
use bytes::{Buf, BufMut, Bytes, BytesMut};
use crate::proto::wire;

verus! {

#[verifier::external_type_specification]
#[verifier::external_body]
pub struct ExBytes(bytes::Bytes);

#[verifier::external_type_specification]
#[verifier::external_body]
pub struct ExBytesMut(bytes::BytesMut);

/// The octets that a `bytes::Bytes` has left to read.
pub uninterp spec fn bytes_content(b: bytes::Bytes) -> Seq<u8>;

/// The octets that a `bytes::BytesMut` holds.
pub uninterp spec fn buffer_content(b: bytes::BytesMut) -> Seq<u8>;

/// `Bytes::len` is the number of octets left to read.
pub assume_specification[ bytes::Bytes::len ](b: &Bytes) -> (n: usize)
    ensures
        n == bytes_content(*b).len(),
;

/// `Bytes::split_to` takes the first `at` octets out and leaves the others. It
/// panics when there are fewer.
pub assume_specification[ bytes::Bytes::split_to ](b: &mut Bytes, at: usize) -> (front: Bytes)
    requires
        at <= bytes_content(*old(b)).len(),
    ensures
        bytes_content(front) == bytes_content(*old(b)).take(at as int),
        bytes_content(*final(b)) == bytes_content(*old(b)).skip(at as int),
;

/// `Bytes::clone` is another handle on the same octets.
pub assume_specification[ <bytes::Bytes as Clone>::clone ](b: &Bytes) -> (r: Bytes)
    ensures
        bytes_content(r) == bytes_content(*b),
;

/// `BytesMut::new` is empty.
pub assume_specification[ bytes::BytesMut::new ]() -> (b: BytesMut)
    ensures
        buffer_content(b).len() == 0,
;

/// `BytesMut::with_capacity` is empty. An allocation of more than `isize::MAX`
/// octets panics.
pub assume_specification[ bytes::BytesMut::with_capacity ](capacity: usize) -> (b: BytesMut)
    requires
        capacity <= isize::MAX,
    ensures
        buffer_content(b).len() == 0,
;

/// `BytesMut::len` is the number of octets held.
pub assume_specification[ bytes::BytesMut::len ](b: &BytesMut) -> (n: usize)
    ensures
        n == buffer_content(*b).len(),
;

/// `BytesMut::truncate` keeps the first `len` octets, or all of them when there
/// are not that many.
pub assume_specification[ bytes::BytesMut::truncate ](b: &mut BytesMut, len: usize)
    ensures
        buffer_content(*final(b)) == (if len <= buffer_content(*old(b)).len() {
            buffer_content(*old(b)).take(len as int)
        } else {
            buffer_content(*old(b))
        }),
;

/// `BytesMut::split_to` takes the first `at` octets out and leaves the others.
/// It panics when there are fewer.
pub assume_specification[ bytes::BytesMut::split_to ](b: &mut BytesMut, at: usize) -> (front:
    BytesMut)
    requires
        at <= buffer_content(*old(b)).len(),
    ensures
        buffer_content(front) == buffer_content(*old(b)).take(at as int),
        buffer_content(*final(b)) == buffer_content(*old(b)).skip(at as int),
;

/// `BytesMut::reserve` makes room and leaves the content as it is. It panics
/// when the whole would pass the largest possible allocation.
pub assume_specification[ bytes::BytesMut::reserve ](b: &mut BytesMut, additional: usize)
    requires
        buffer_content(*old(b)).len() + additional <= isize::MAX,
    ensures
        buffer_content(*final(b)) == buffer_content(*old(b)),
;

/// `BytesMut::extend_from_slice` appends the octets of `extend`. It panics when
/// the whole would pass the largest possible allocation.
pub assume_specification[ bytes::BytesMut::extend_from_slice ](b: &mut BytesMut, extend: &[u8])
    requires
        buffer_content(*old(b)).len() + extend@.len() <= isize::MAX,
    ensures
        buffer_content(*final(b)) == buffer_content(*old(b)) + extend@,
;

/// `BytesMut::freeze` keeps the content.
pub assume_specification[ bytes::BytesMut::freeze ](b: BytesMut) -> (r: Bytes)
    ensures
        bytes_content(r) == buffer_content(b),
;

/// `Bytes::deref`: the octets left to read, as a slice.
#[verifier::external_body]
pub(crate) fn bytes_slice(b: &Bytes) -> (r: &[u8])
    ensures
        r@ == bytes_content(*b),
{
    std::ops::Deref::deref(b)
}

/// `BytesMut::deref`: the octets held, as a slice.
#[verifier::external_body]
pub(crate) fn buffer_slice(b: &BytesMut) -> (r: &[u8])
    ensures
        r@ == buffer_content(*b),
{
    std::ops::Deref::deref(b)
}

/// `Buf::get_u16` on a `Bytes` reads two octets, most significant first, and
/// moves past them. It panics when there are fewer.
#[verifier::external_body]
pub(crate) fn get_u16(b: &mut Bytes) -> (r: u16)
    requires
        bytes_content(*old(b)).len() >= 2,
    ensures
        r == wire::from_be(bytes_content(*old(b)).take(2)),
        bytes_content(*final(b)) == bytes_content(*old(b)).skip(2),
{
    b.get_u16()
}

/// `Buf::copy_to_slice` on a `Bytes`, into four octets: they are the first ones
/// left, and the buffer moves past them. It panics when there are fewer.
#[verifier::external_body]
pub(crate) fn copy_four(b: &mut Bytes) -> (r: [u8; 4])
    requires
        bytes_content(*old(b)).len() >= 4,
    ensures
        r@ == bytes_content(*old(b)).take(4),
        bytes_content(*final(b)) == bytes_content(*old(b)).skip(4),
{
    let mut dst = [0u8; 4];
    b.copy_to_slice(&mut dst);
    dst
}

/// `BufMut::put_u8` on a `BytesMut` appends one octet.
#[verifier::external_body]
pub(crate) fn put_u8(b: &mut BytesMut, n: u8)
    requires
        buffer_content(*old(b)).len() + 1 <= isize::MAX,
    ensures
        buffer_content(*final(b)) == buffer_content(*old(b)).push(n),
{
    b.put_u8(n)
}

/// `BufMut::put_u16` on a `BytesMut` appends two octets, most significant
/// first.
#[verifier::external_body]
pub(crate) fn put_u16(b: &mut BytesMut, n: u16)
    requires
        buffer_content(*old(b)).len() + 2 <= isize::MAX,
    ensures
        buffer_content(*final(b)) == buffer_content(*old(b)) + wire::be(n as nat, 2),
{
    b.put_u16(n)
}

/// `BufMut::put_u32` on a `BytesMut` appends four octets, most significant
/// first.
#[verifier::external_body]
pub(crate) fn put_u32(b: &mut BytesMut, n: u32)
    requires
        buffer_content(*old(b)).len() + 4 <= isize::MAX,
    ensures
        buffer_content(*final(b)) == buffer_content(*old(b)) + wire::be(n as nat, 4),
{
    b.put_u32(n)
}

/// `BufMut::put_u64` on a `BytesMut` appends eight octets, most significant
/// first.
#[verifier::external_body]
pub(crate) fn put_u64(b: &mut BytesMut, n: u64)
    requires
        buffer_content(*old(b)).len() + 8 <= isize::MAX,
    ensures
        buffer_content(*final(b)) == buffer_content(*old(b)) + wire::be(n as nat, 8),
{
    b.put_u64(n)
}

/// `BufMut::put_slice` on a `BytesMut` appends the octets of `src`.
#[verifier::external_body]
pub(crate) fn put_slice(b: &mut BytesMut, src: &[u8])
    requires
        buffer_content(*old(b)).len() + src@.len() <= isize::MAX,
    ensures
        buffer_content(*final(b)) == buffer_content(*old(b)) + src@,
{
    b.put_slice(src)
}

/// `BufMut::put` on a `BytesMut`, given another one, appends all its octets.
#[verifier::external_body]
pub(crate) fn put_buffer(b: &mut BytesMut, src: BytesMut)
    requires
        buffer_content(*old(b)).len() + buffer_content(src).len() <= isize::MAX,
    ensures
        buffer_content(*final(b)) == buffer_content(*old(b)) + buffer_content(src),
{
    b.put(src)
}

/// `BytesMut::deref_mut` and a copy into two octets of the slice: the octets
/// at `at` and behind it become those of `n`, most significant first, and the
/// others stay. It panics when they do not both exist.
#[verifier::external_body]
pub(crate) fn set_u16(b: &mut BytesMut, at: usize, n: u16)
    requires
        at + 2 <= buffer_content(*old(b)).len(),
    ensures
        buffer_content(*final(b)) == buffer_content(*old(b)).take(at as int) + wire::be(n as nat, 2)
            + buffer_content(*old(b)).skip(at + 2),
{
    b[at..][..2].copy_from_slice(&n.to_be_bytes())
}

} // verus!
