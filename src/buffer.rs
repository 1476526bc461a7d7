//! The byte buffer of the `bytes` crate, as the codec sees it.
use vstd::prelude::*;

verus! {

#[verifier::external_type_specification]
#[verifier::external_body]
pub struct ExBytesMut(bytes::BytesMut);

/// The bytes that a buffer holds, in order.
pub uninterp spec fn buffer_bytes(b: bytes::BytesMut) -> Seq<u8>;

/// Relies on `<BytesMut as AsRef<[u8]>>::as_ref`: a view of the bytes held.
#[verifier::external_body]
pub(crate) fn held_bytes(b: &bytes::BytesMut) -> (r: &[u8])
    ensures
        r@ == buffer_bytes(*b),
{
    b.as_ref()
}

/// Relies on `BytesMut::split_to`: the first `at` bytes move to the result,
/// the rest stay. It panics when `at` exceeds the length.
#[verifier::external_body]
pub(crate) fn split_front(b: &mut bytes::BytesMut, at: usize) -> (r: bytes::BytesMut)
    requires
        at <= buffer_bytes(*old(b)).len(),
    ensures
        buffer_bytes(r) == buffer_bytes(*old(b)).subrange(0, at as int),
        buffer_bytes(*final(b)) == buffer_bytes(*old(b)).subrange(
            at as int,
            buffer_bytes(*old(b)).len() as int,
        ),
{
    b.split_to(at)
}

/// Relies on `<BytesMut as BufMut>::put` with a byte slice: the bytes are
/// appended. It panics when the length would pass `isize::MAX`.
#[verifier::external_body]
pub(crate) fn append_bytes(b: &mut bytes::BytesMut, s: &[u8])
    requires
        buffer_bytes(*old(b)).len() + s@.len() <= isize::MAX,
    ensures
        buffer_bytes(*final(b)) == buffer_bytes(*old(b)) + s@,
{
    bytes::BufMut::put(b, s)
}

} // verus!
