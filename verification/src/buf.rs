//! The growable byte buffer of the `bytes` crate, as the codec uses it.
//!
//! Nothing in this file is proved. Each function makes one call into
//! `bytes` and states, over [`contents`], what that call is documented to
//! do; the rest of the crate is verified against these statements. As with
//! `Vec`, running out of memory is not part of them.

use crate::le::{i32_from_le, i32_le, u32_from_le, u32_le};
use bytes::{Buf, BufMut, BytesMut};
use vstd::prelude::*;

verus! {

/// `bytes::BytesMut`, taken as it is: nothing inside it is looked at.
#[verifier::external_type_specification]
#[verifier::external_body]
pub struct ExBytesMut(bytes::BytesMut);

/// The bytes that a buffer holds, first to last.
pub uninterp spec fn contents(b: bytes::BytesMut) -> Seq<u8>;

/// `BytesMut::new`: a buffer that holds nothing.
#[verifier::external_body]
pub(crate) fn bytes_new() -> (b: BytesMut)
    ensures
        contents(b) == Seq::<u8>::empty(),
{
    BytesMut::new()
}

/// `BytesMut::with_capacity`: a buffer that holds nothing, whatever room
/// was asked for. It panics when asked for more room than an allocation
/// can have.
#[verifier::external_body]
pub(crate) fn bytes_with_capacity(capacity: usize) -> (b: BytesMut)
    requires
        capacity <= isize::MAX,
    ensures
        contents(b) == Seq::<u8>::empty(),
{
    BytesMut::with_capacity(capacity)
}

/// `BytesMut::len`: how many bytes the buffer holds.
#[verifier::external_body]
pub(crate) fn bytes_len(b: &BytesMut) -> (n: usize)
    ensures
        n == contents(*b).len(),
{
    b.len()
}

/// `BytesMut::is_empty`: whether the buffer holds no byte.
#[verifier::external_body]
pub(crate) fn bytes_is_empty(b: &BytesMut) -> (empty: bool)
    ensures
        empty == (contents(*b).len() == 0),
{
    b.is_empty()
}

/// `Deref for BytesMut`: the held bytes as a slice.
#[verifier::external_body]
pub(crate) fn bytes_as_slice(b: &BytesMut) -> (s: &[u8])
    ensures
        s@ == contents(*b),
{
    &b[..]
}

/// `BytesMut::extend_from_slice`: the bytes of `extend` are appended.
#[verifier::external_body]
pub(crate) fn bytes_extend_from_slice(b: &mut BytesMut, extend: &[u8])
    ensures
        contents(*final(b)) == contents(*old(b)) + extend@,
{
    b.extend_from_slice(extend)
}

/// `BufMut::put_slice` on a `BytesMut`, which grows as needed: the bytes of
/// `src` are appended.
#[verifier::external_body]
pub(crate) fn bytes_put_slice(b: &mut BytesMut, src: &[u8])
    ensures
        contents(*final(b)) == contents(*old(b)) + src@,
{
    b.put_slice(src)
}

/// `BufMut::put_u8` on a `BytesMut`: one byte is appended.
#[verifier::external_body]
pub(crate) fn bytes_put_u8(b: &mut BytesMut, n: u8)
    ensures
        contents(*final(b)) == contents(*old(b)).push(n),
{
    b.put_u8(n)
}

/// `BufMut::put_u32_le` on a `BytesMut`: the four bytes of `n` are
/// appended, lowest first.
#[verifier::external_body]
pub(crate) fn bytes_put_u32_le(b: &mut BytesMut, n: u32)
    ensures
        contents(*final(b)) == contents(*old(b)) + u32_le(n),
{
    b.put_u32_le(n)
}

/// `BufMut::put_i32_le` on a `BytesMut`: the four bytes of `n` in two's
/// complement are appended, lowest first.
#[verifier::external_body]
pub(crate) fn bytes_put_i32_le(b: &mut BytesMut, n: i32)
    ensures
        contents(*final(b)) == contents(*old(b)) + i32_le(n),
{
    b.put_i32_le(n)
}

/// `Buf::advance` on a `BytesMut`: the first `cnt` bytes are dropped. It
/// panics when asked to drop more than the buffer holds.
#[verifier::external_body]
pub(crate) fn bytes_advance(b: &mut BytesMut, cnt: usize)
    requires
        cnt <= contents(*old(b)).len(),
    ensures
        contents(*final(b)) == contents(*old(b)).skip(cnt as int),
{
    b.advance(cnt)
}

/// `BytesMut::split_to`: the first `at` bytes are handed out and the buffer
/// keeps the rest. It panics when `at` is past the end.
#[verifier::external_body]
pub(crate) fn bytes_split_to(b: &mut BytesMut, at: usize) -> (head: BytesMut)
    requires
        at <= contents(*old(b)).len(),
    ensures
        contents(head) == contents(*old(b)).take(at as int),
        contents(*final(b)) == contents(*old(b)).skip(at as int),
{
    b.split_to(at)
}

/// `BytesMut::split`: everything is handed out and the buffer is left
/// empty.
#[verifier::external_body]
pub(crate) fn bytes_split(b: &mut BytesMut) -> (all: BytesMut)
    ensures
        contents(all) == contents(*old(b)),
        contents(*final(b)) == Seq::<u8>::empty(),
{
    b.split()
}

/// `BytesMut::clear`: the buffer is left empty.
#[verifier::external_body]
pub(crate) fn bytes_clear(b: &mut BytesMut)
    ensures
        contents(*final(b)) == Seq::<u8>::empty(),
{
    b.clear()
}

/// `Buf::get_u32_le` on a `BytesMut`: the first four bytes are read as a
/// word, lowest byte first, and dropped. It panics on fewer than four.
#[verifier::external_body]
pub(crate) fn bytes_get_u32_le(b: &mut BytesMut) -> (n: u32)
    requires
        contents(*old(b)).len() >= 4,
    ensures
        n == u32_from_le(contents(*old(b))),
        contents(*final(b)) == contents(*old(b)).skip(4),
{
    b.get_u32_le()
}

/// `Buf::get_i32_le` on a `BytesMut`: the first four bytes are read as a
/// two's complement word, lowest byte first, and dropped. It panics on
/// fewer than four.
#[verifier::external_body]
pub(crate) fn bytes_get_i32_le(b: &mut BytesMut) -> (n: i32)
    requires
        contents(*old(b)).len() >= 4,
    ensures
        n == i32_from_le(contents(*old(b))),
        contents(*final(b)) == contents(*old(b)).skip(4),
{
    b.get_i32_le()
}

} // verus!
