//! The ring buffer that backs the client's record storage.

use vstd::prelude::*;

verus! {

/// A heap-allocated byte ring buffer of `ringbuf`, opaque to the verifier.
/// The buffer's own type is bounded by a trait of `ringbuf` and cannot be
/// made known to the verifier, so it is held in here.
#[verifier::external_body]
pub struct ByteRing {
    rb: ringbuf::HeapRb<u8>,
}

/// The number of bytes that a ring buffer was made to hold.
pub uninterp spec fn ring_capacity(ring: ByteRing) -> nat;

/// The bytes that a ring buffer holds, oldest first.
pub uninterp spec fn ring_contents(ring: ByteRing) -> Seq<u8>;

/// `HeapRb::new`: an empty ring buffer of exactly the capacity asked for.
/// The call panics on a capacity of zero or above `usize::MAX / 2`, which
/// the precondition leaves out.
#[verifier::external_body]
pub(crate) fn new_ring(capacity: usize) -> (ring: ByteRing)
    requires
        0 < capacity <= usize::MAX / 2,
    ensures
        ring_capacity(ring) == capacity,
        ring_contents(ring) == Seq::<u8>::empty(),
{
    ByteRing { rb: ringbuf::HeapRb::<u8>::new(capacity) }
}

/// `Observer::capacity`: the capacity that the ring buffer was made with.
#[verifier::external_body]
pub(crate) fn ring_size(ring: &ByteRing) -> (capacity: usize)
    ensures
        capacity == ring_capacity(*ring),
{
    ringbuf::traits::Observer::capacity(&ring.rb).get()
}

} // verus!
