//! The bounded FIFO of samples that the audio paths share, held in a
//! `ringbuf` heap ring buffer of `u32` sample words.
//!
//! Everything the rest of the crate knows of a ring buffer comes from the
//! contracts below, stated over two names: the items it holds, oldest
//! first, and the capacity it was made with.
use ringbuf::traits::{Consumer, Observer, Producer};
use ringbuf::HeapRb;
use vstd::prelude::*;

verus! {

/// A `ringbuf` heap ring buffer of sample words, held opaquely and
/// reached only through the functions below.
#[verifier::external_body]
pub struct SampleRing {
    rb: HeapRb<u32>,
}

/// The items a ring buffer holds, oldest first.
pub uninterp spec fn ring_items(rb: SampleRing) -> Seq<u32>;

/// The capacity a ring buffer was made with.
pub uninterp spec fn ring_capacity(rb: SampleRing) -> nat;

/// `HeapRb::new`: an empty ring buffer with room for exactly `capacity`
/// items. The crate panics on a zero capacity and on an allocation whose
/// size in bytes exceeds `isize::MAX`; both are left out.
#[verifier::external_body]
pub(crate) fn ring_new(capacity: usize) -> (rb: SampleRing)
    requires
        0 < capacity <= usize::MAX / 8,
    ensures
        ring_items(rb) == Seq::<u32>::empty(),
        ring_capacity(rb) == capacity,
{
    SampleRing { rb: HeapRb::<u32>::new(capacity) }
}

/// The four functions below do not unwind: their ringbuf bodies are index
/// arithmetic modulo twice the capacity and unchecked slot accesses, with
/// no panicking path.
///
/// `Producer::try_push`: appends `x` as the newest item when the buffer
/// holds fewer items than its capacity, and otherwise hands `x` back
/// untouched.
#[verifier::external_body]
pub(crate) fn ring_try_push(rb: &mut SampleRing, x: u32) -> (r: Result<(), u32>)
    ensures
        ring_capacity(*final(rb)) == ring_capacity(*old(rb)),
        ring_items(*old(rb)).len() < ring_capacity(*old(rb)) ==> {
            &&& r is Ok
            &&& ring_items(*final(rb)) == ring_items(*old(rb)).push(x)
        },
        ring_items(*old(rb)).len() >= ring_capacity(*old(rb)) ==> {
            &&& r == Err::<(), u32>(x)
            &&& ring_items(*final(rb)) == ring_items(*old(rb))
        },
    no_unwind
{
    rb.rb.try_push(x)
}

/// `Consumer::try_pop`: removes and returns the oldest item, or returns
/// `None` and leaves the buffer as it was when it is empty.
#[verifier::external_body]
pub(crate) fn ring_try_pop(rb: &mut SampleRing) -> (r: Option<u32>)
    ensures
        ring_capacity(*final(rb)) == ring_capacity(*old(rb)),
        ring_items(*old(rb)).len() > 0 ==> {
            &&& r == Some(ring_items(*old(rb))[0])
            &&& ring_items(*final(rb)) == ring_items(*old(rb)).drop_first()
        },
        ring_items(*old(rb)).len() == 0 ==> {
            &&& r is None
            &&& ring_items(*final(rb)) == ring_items(*old(rb))
        },
    no_unwind
{
    rb.rb.try_pop()
}

/// `Observer::occupied_len`: the number of items held.
#[verifier::external_body]
pub(crate) fn ring_occupied_len(rb: &SampleRing) -> (n: usize)
    ensures
        n == ring_items(*rb).len(),
    no_unwind
{
    rb.rb.occupied_len()
}

/// `Observer::is_full`: whether the buffer holds as many items as its
/// capacity.
#[verifier::external_body]
pub(crate) fn ring_is_full(rb: &SampleRing) -> (full: bool)
    ensures
        full == (ring_items(*rb).len() >= ring_capacity(*rb)),
    no_unwind
{
    rb.rb.is_full()
}

} // verus!
