//! The fixed-length frame history, held in `dasp_ring_buffer::Fixed`.
use vstd::prelude::*;

use crate::SampleFrame;

verus! {

#[verifier::external_type_specification]
#[verifier::external_body]
#[verifier::reject_recursive_types(S)]
pub struct ExFixed<S>(dasp_ring_buffer::Fixed<S>);

/// A fixed ring of sample frames: pushing one evicts the oldest.
pub type FrameRing = dasp_ring_buffer::Fixed<Vec<SampleFrame>>;

/// The frames held by a ring, oldest first.
pub uninterp spec fn ring_contents(r: dasp_ring_buffer::Fixed<Vec<[i16; 16]>>) -> Seq<[i16; 16]>;

/// Relies on `Fixed::from` (via `Fixed::from_raw_parts(0, data)`): the ring
/// holds `data` with its first element as the oldest; it panics on empty data.
#[verifier::external_body]
pub(crate) fn ring_from(data: Vec<SampleFrame>) -> (r: FrameRing)
    requires
        data@.len() > 0,
    ensures
        ring_contents(r) == data@,
{
    dasp_ring_buffer::Fixed::from(data)
}

/// Relies on `Fixed::push`: the item replaces the oldest one, which is
/// returned, and the ring keeps its length.
#[verifier::external_body]
pub(crate) fn ring_push(r: &mut FrameRing, item: SampleFrame) -> (evicted: SampleFrame)
    requires
        ring_contents(*old(r)).len() > 0,
    ensures
        evicted == ring_contents(*old(r))[0],
        ring_contents(*final(r)) == ring_contents(*old(r)).drop_first().push(item),
{
    r.push(item)
}

} // verus!
