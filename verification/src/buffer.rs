//! Byte buffers of the `bytes` crate, as they are used by the library.
//!
//! `Bytes` and `BytesMut` are opaque to Verus; what they hold is named by
//! `bytes_content` and `bytes_mut_content`, and each method that the library
//! calls gets a specification that speaks of those names.
use bytes::{Bytes, BytesMut};
use vstd::prelude::*;

verus! {

#[verifier::external_type_specification]
#[verifier::external_body]
pub struct ExBytes(Bytes);

#[verifier::external_type_specification]
#[verifier::external_body]
pub struct ExBytesMut(BytesMut);

/// The bytes that a `Bytes` handle holds, in order.
pub uninterp spec fn bytes_content(b: Bytes) -> Seq<u8>;

/// The bytes that a `BytesMut` buffer holds, in order.
pub uninterp spec fn bytes_mut_content(b: BytesMut) -> Seq<u8>;

/// `Bytes::len`: the number of bytes held.
pub assume_specification[ Bytes::len ](b: &Bytes) -> (n: usize)
    ensures
        n == bytes_content(*b).len(),
;

/// `Bytes::split_to`: afterwards `b` holds `[at, len)` and the result `[0, at)`;
/// it panics when `at > len`.
pub assume_specification[ Bytes::split_to ](b: &mut Bytes, at: usize) -> (head: Bytes)
    requires
        at <= bytes_content(*old(b)).len(),
    ensures
        bytes_content(head) == bytes_content(*old(b)).take(at as int),
        bytes_content(*final(b)) == bytes_content(*old(b)).skip(at as int),
;

/// `Bytes::is_empty`: whether no byte is held.
pub assume_specification[ Bytes::is_empty ](b: &Bytes) -> (empty: bool)
    ensures
        empty == (bytes_content(*b).len() == 0),
;

/// `BytesMut::new`: an empty buffer.
pub assume_specification[ BytesMut::new ]() -> (b: BytesMut)
    ensures
        bytes_mut_content(b) == Seq::<u8>::empty(),
;

/// `BytesMut::with_capacity`: an empty buffer; the allocation that it makes
/// panics beyond `isize::MAX` bytes.
pub assume_specification[ BytesMut::with_capacity ](capacity: usize) -> (b: BytesMut)
    requires
        capacity <= isize::MAX,
    ensures
        bytes_mut_content(b) == Seq::<u8>::empty(),
;

/// `BytesMut::extend_from_slice`: appends the slice; growing the buffer
/// beyond `isize::MAX` bytes panics.
pub assume_specification[ BytesMut::extend_from_slice ](b: &mut BytesMut, extend: &[u8])
    requires
        bytes_mut_content(*old(b)).len() + extend@.len() <= isize::MAX,
    ensures
        bytes_mut_content(*final(b)) == bytes_mut_content(*old(b)) + extend@,
;

/// `BytesMut::resize`: truncates to `new_len`, or extends with copies of
/// `value` up to `new_len`; growing beyond `isize::MAX` bytes panics.
pub assume_specification[ BytesMut::resize ](b: &mut BytesMut, new_len: usize, value: u8)
    requires
        new_len <= isize::MAX,
    ensures
        bytes_mut_content(*final(b)) == (if new_len <= bytes_mut_content(*old(b)).len() {
            bytes_mut_content(*old(b)).take(new_len as int)
        } else {
            bytes_mut_content(*old(b)) + Seq::new(
                (new_len - bytes_mut_content(*old(b)).len()) as nat,
                |i: int| value,
            )
        }),
;

/// `BytesMut::freeze`: the same bytes as an immutable handle.
pub assume_specification[ BytesMut::freeze ](b: BytesMut) -> (frozen: Bytes)
    ensures
        bytes_content(frozen) == bytes_mut_content(b),
;

/// A run of `n` zero bytes.
pub open spec fn zeros(n: nat) -> Seq<u8> {
    Seq::new(n, |i: int| 0u8)
}

/// A fresh handle holding exactly the bytes of `data`.
pub fn bytes_from_slice(data: &[u8]) -> (b: Bytes)
    requires
        data@.len() <= isize::MAX,
    ensures
        bytes_content(b) == data@,
{
    let mut buf = BytesMut::new();
    buf.extend_from_slice(data);
    assert(Seq::<u8>::empty() + data@ == data@);
    buf.freeze()
}

/// A fresh handle holding `len` zero bytes, built as a buffer of that
/// capacity filled by `resize`.
pub fn zeroed_bytes(capacity: usize, len: usize) -> (b: Bytes)
    requires
        capacity <= isize::MAX,
        len <= isize::MAX,
    ensures
        bytes_content(b) == zeros(len as nat),
{
    let mut buf = BytesMut::with_capacity(capacity);
    buf.resize(len, 0);
    let b = buf.freeze();
    assert(bytes_content(b) =~= zeros(len as nat));
    b
}

} // verus!
