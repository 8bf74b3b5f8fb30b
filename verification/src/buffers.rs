//! The byte buffers of the `bytes` crate, as the framing code uses them.
//!
//! `BytesMut` and `Bytes` are opaque here; what they hold is named by
//! `bytes_mut_content` and `bytes_content`, and each operation the library
//! calls states how it changes or reads that content.

use bytes::Buf;
use bytes::BufMut;
use bytes::Bytes;
use bytes::BytesMut;
use vstd::prelude::*;

verus! {

/// `bytes::BytesMut`, a growable byte buffer.
#[verifier::external_type_specification]
#[verifier::external_body]
pub struct ExBytesMut(bytes::BytesMut);

/// `bytes::Bytes`, an immutable, cheaply shared byte buffer.
#[verifier::external_type_specification]
#[verifier::external_body]
pub struct ExBytes(bytes::Bytes);

/// The bytes a `BytesMut` holds, from its read position to its end.
pub uninterp spec fn bytes_mut_content(b: BytesMut) -> Seq<u8>;

/// The bytes a `Bytes` holds.
pub uninterp spec fn bytes_content(b: Bytes) -> Seq<u8>;

/// `BytesMut::with_capacity`: a buffer that holds no bytes.
/// The capacity is left unsaid; only the length of the content matters here.
/// It allocates through `Vec::with_capacity`, which panics above `isize::MAX`.
#[verifier::external_body]
pub(crate) fn bytes_mut_with_capacity(capacity: usize) -> (b: BytesMut)
    requires
        capacity <= isize::MAX,
    ensures
        bytes_mut_content(b) == Seq::<u8>::empty(),
{
    BytesMut::with_capacity(capacity)
}

/// `BufMut::put_u8` on a `BytesMut`: appends one byte.
/// It panics once the length would pass `isize::MAX`.
#[verifier::external_body]
pub(crate) fn bytes_mut_put_u8(b: &mut BytesMut, n: u8)
    requires
        bytes_mut_content(*old(b)).len() + 1 <= isize::MAX,
    ensures
        bytes_mut_content(*final(b)) == bytes_mut_content(*old(b)).push(n),
{
    b.put_u8(n)
}

/// `BufMut::put_slice` on a `BytesMut`: appends the bytes of `src`.
/// It panics once the length would pass `isize::MAX`.
#[verifier::external_body]
pub(crate) fn bytes_mut_put_slice(b: &mut BytesMut, src: &[u8])
    requires
        bytes_mut_content(*old(b)).len() + src@.len() <= isize::MAX,
    ensures
        bytes_mut_content(*final(b)) == bytes_mut_content(*old(b)) + src@,
{
    b.put_slice(src)
}

/// `BytesMut::freeze`: the same bytes, now immutable.
#[verifier::external_body]
pub(crate) fn bytes_mut_freeze(b: BytesMut) -> (r: Bytes)
    ensures
        bytes_content(r) == bytes_mut_content(b),
{
    b.freeze()
}

/// `Buf::get_u8` on a `BytesMut`: takes the first byte off the front.
/// It panics on an empty buffer.
#[verifier::external_body]
pub(crate) fn bytes_mut_get_u8(b: &mut BytesMut) -> (r: u8)
    requires
        bytes_mut_content(*old(b)).len() >= 1,
    ensures
        r == bytes_mut_content(*old(b))[0],
        bytes_mut_content(*final(b)) == bytes_mut_content(*old(b)).drop_first(),
{
    b.get_u8()
}

/// `BytesMut::len`: the number of bytes held.
#[verifier::external_body]
pub(crate) fn bytes_mut_len(b: &BytesMut) -> (r: usize)
    ensures
        r == bytes_mut_content(*b).len(),
{
    b.len()
}

} // verus!
