//! The `bytes::BytesMut` buffer that carries frame payloads out of the
//! shared-memory ring, with the two operations the frame path performs on it.

use vstd::prelude::*;

use bytes::BytesMut;

verus! {

#[verifier::external_type_specification]
#[verifier::external_body]
pub struct ExBytesMut(bytes::BytesMut);

/// The bytes held by a `BytesMut`, in order.
pub uninterp spec fn bytes_mut_contents(b: BytesMut) -> Seq<u8>;

/// `BytesMut::with_capacity`: a new buffer is empty whatever capacity it was
/// given (bytes-1.12 `bytes_mut.rs`, built from `Vec::with_capacity`).
/// The capacity actually allocated is not stated.
#[verifier::external_body]
pub(crate) fn bytes_mut_with_capacity(capacity: usize) -> (b: BytesMut)
    requires
        capacity <= 0x7fff_ffff,
    ensures
        bytes_mut_contents(b) == Seq::<u8>::empty(),
{
    BytesMut::with_capacity(capacity)
}

/// `BytesMut::extend_from_slice`: appends `extend` after the current contents
/// (it reserves room, copies the slice into the spare capacity and advances the
/// length). The requirement keeps the reservation from overflowing.
#[verifier::external_body]
pub(crate) fn bytes_mut_extend_from_slice(b: &mut BytesMut, extend: &[u8])
    requires
        bytes_mut_contents(*old(b)).len() + extend@.len() <= 0x7fff_ffff,
    ensures
        bytes_mut_contents(*final(b)) == bytes_mut_contents(*old(b)) + extend@,
{
    b.extend_from_slice(extend)
}

} // verus!
