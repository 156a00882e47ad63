//! Byte buffers: `bytes::BytesMut`, seen as the sequence of bytes it holds.

use bytes::BytesMut;
use vstd::prelude::*;

verus! {

/// A growable byte buffer.
#[verifier::external_type_specification]
#[verifier::external_body]
pub struct ExBytesMut(BytesMut);

/// The bytes that a buffer holds.
pub uninterp spec fn held(buffer: BytesMut) -> Seq<u8>;

/// The capacity that a buffer was made with: as many bytes as it was to have room
/// for at least. What it was given is the allocator's matter.
pub uninterp spec fn asked(buffer: BytesMut) -> usize;

/// What clearing makes of a buffer: that same buffer, without its bytes.
pub uninterp spec fn cleared(buffer: BytesMut) -> BytesMut;

/// `BytesMut::with_capacity` gives a buffer that was made with that capacity and
/// holds nothing. It panics on a capacity that no allocation can have.
pub assume_specification[ BytesMut::with_capacity ](capacity: usize) -> (b: BytesMut)
    requires
        capacity <= isize::MAX,
    ensures
        held(b) == Seq::<u8>::empty(),
        asked(b) == capacity,
;

/// `BytesMut::clear` drops every byte and keeps the buffer.
pub assume_specification[ BytesMut::clear ](b: &mut BytesMut)
    ensures
        *final(b) == cleared(*old(b)),
        held(*final(b)) == Seq::<u8>::empty(),
        asked(*final(b)) == asked(*old(b)),
;

/// `BytesMut::len` counts the bytes held.
pub assume_specification[ BytesMut::len ](b: &BytesMut) -> (r: usize)
    ensures
        r == held(*b).len(),
;

/// `BytesMut::extend_from_slice` appends the bytes of the slice. It panics where
/// no allocation can hold them all; a slice alone always fits one.
pub assume_specification[ BytesMut::extend_from_slice ](b: &mut BytesMut, extend: &[u8])
    requires
        held(*old(b)).len() == 0 || held(*old(b)).len() + extend@.len() <= isize::MAX,
    ensures
        held(*final(b)) == held(*old(b)) + extend@,
;

/// The slice that a `BytesMut` dereferences to, copied: the bytes it holds.
#[verifier::external_body]
pub(crate) fn copy_bytes(buffer: &BytesMut) -> (r: Vec<u8>)
    ensures
        r@ == held(*buffer),
{
    buffer.to_vec()
}

} // verus!
