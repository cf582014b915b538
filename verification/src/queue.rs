//! The sample queues between the audio callbacks and the network: a
//! bounded FIFO of sample words with the push and pull disciplines the
//! voice paths use.
use crate::ring::{
    ring_capacity, ring_is_full, ring_items, ring_new, ring_occupied_len, ring_try_pop,
    ring_try_push, SampleRing,
};
use vstd::prelude::*;

verus! {

/// A captured sample offered to a queue that drops from its old end:
/// with room it is appended; on a full queue it is discarded and the
/// oldest sample is dropped as well.
pub open spec fn evict_push(items: Seq<u32>, cap: nat, x: u32) -> Seq<u32> {
    if items.len() < cap {
        items.push(x)
    } else {
        items.drop_first()
    }
}

/// `evict_push` of each sample of `xs` in turn.
pub open spec fn evict_push_all(items: Seq<u32>, cap: nat, xs: Seq<u32>) -> Seq<u32>
    decreases xs.len(),
{
    if xs.len() == 0 {
        items
    } else {
        evict_push(evict_push_all(items, cap, xs.drop_last()), cap, xs.last())
    }
}

/// The queue after offering `xs` to a queue that keeps what it holds and
/// refuses what does not fit.
pub open spec fn lossy_push_all(items: Seq<u32>, cap: nat, xs: Seq<u32>) -> Seq<u32> {
    (items + xs).take(kept_len(items.len(), cap, xs.len()) as int)
}

/// How many samples a queue of capacity `cap` holds after `n` are offered
/// to it while it holds `len`.
pub open spec fn kept_len(len: nat, cap: nat, n: nat) -> nat {
    if len + n <= cap {
        len + n
    } else if len <= cap {
        cap
    } else {
        len
    }
}

/// One captured sample of the loopback monitor: nothing happens on a full
/// queue, a mono sample is stored twice and any other once. `None` marks
/// the case where a mono sample finds room for one copy only, which the
/// monitor does not survive.
pub open spec fn loopback_step(items: Option<Seq<u32>>, cap: nat, mono: bool, x: u32) -> Option<
    Seq<u32>,
> {
    match items {
        None => None,
        Some(s) => if s.len() >= cap {
            Some(s)
        } else if mono {
            if s.len() + 1 >= cap {
                None
            } else {
                Some(s.push(x).push(x))
            }
        } else {
            Some(s.push(x))
        },
    }
}

/// `loopback_step` of each sample of `xs` in turn.
pub open spec fn loopback_push_all(items: Seq<u32>, cap: nat, mono: bool, xs: Seq<u32>) -> Option<
    Seq<u32>,
>
    decreases xs.len(),
{
    if xs.len() == 0 {
        Some(items)
    } else {
        loopback_step(loopback_push_all(items, cap, mono, xs.drop_last()), cap, mono, xs.last())
    }
}

/// The `n` samples an output period pulls from a queue holding `items`,
/// silence where the queue runs dry.
pub open spec fn pulled(items: Seq<u32>, n: nat) -> Seq<u32> {
    Seq::new(n, |k: int| if k < items.len() { items[k] } else { 0u32 })
}

/// What a queue holding `items` keeps after an output period of `n`.
pub open spec fn after_pull(items: Seq<u32>, n: nat) -> Seq<u32> {
    if n <= items.len() {
        items.skip(n as int)
    } else {
        Seq::<u32>::empty()
    }
}

/// A mono sample that found room for one copy only in the loopback queue.
#[derive(Debug, PartialEq, Eq, Structural)]
pub struct LoopbackOverflow;

/// A bounded FIFO of sample words.
pub struct SampleQueue {
    ring: SampleRing,
}

impl SampleQueue {
    /// The samples held, oldest first.
    pub closed spec fn items(&self) -> Seq<u32> {
        ring_items(self.ring)
    }

    /// The number of samples the queue can hold.
    pub closed spec fn capacity(&self) -> nat {
        ring_capacity(self.ring)
    }

    /// A queue holds at most its capacity, and that capacity is not zero.
    #[verifier::type_invariant]
    spec fn inv(self) -> bool {
        &&& 0 < ring_capacity(self.ring)
        &&& ring_items(self.ring).len() <= ring_capacity(self.ring)
    }

    /// An empty queue with room for `capacity` samples.
    pub fn new(capacity: usize) -> (q: Self)
        requires
            0 < capacity <= usize::MAX / 8,
        ensures
            q.items() == Seq::<u32>::empty(),
            q.capacity() == capacity,
    {
        SampleQueue { ring: ring_new(capacity) }
    }

    /// The number of samples held.
    pub fn len(&self) -> (n: usize)
        ensures
            n == self.items().len(),
    {
        ring_occupied_len(&self.ring)
    }

    /// Offers each of `samples` in turn, dropping from the old end when
    /// full (see `evict_push`).
    pub fn push_evicting(&mut self, samples: &[u32])
        ensures
            0 < final(self).capacity(),
            final(self).items().len() <= final(self).capacity(),
            final(self).capacity() == old(self).capacity(),
            final(self).items() == evict_push_all(old(self).items(), old(self).capacity(), samples@),
    {
        proof {
            use_type_invariant(&*self);
        }
        let ghost items0 = self.items();
        let ghost cap = self.capacity();
        let mut i: usize = 0;
        while i < samples.len()
            invariant
                i <= samples@.len(),
                0 < cap,
                ring_capacity(self.ring) == cap,
                ring_items(self.ring).len() <= cap,
                ring_items(self.ring) == evict_push_all(items0, cap, samples@.take(i as int)),
            decreases samples@.len() - i,
        {
            let x: u32 = samples[i];
            match ring_try_push(&mut self.ring, x) {
                Ok(()) => {},
                Err(_) => {
                    let _ = ring_try_pop(&mut self.ring);
                },
            }
            assert(samples@.take(i + 1).drop_last() =~= samples@.take(i as int));
            i += 1;
        }
        assert(samples@.take(samples@.len() as int) =~= samples@);
    }

    /// Takes the `frame_len` oldest samples when at least that many are
    /// held; otherwise takes nothing.
    pub fn take_frame(&mut self, frame_len: usize) -> (frame: Option<Vec<u32>>)
        ensures
            0 < final(self).capacity(),
            final(self).items().len() <= final(self).capacity(),
            final(self).capacity() == old(self).capacity(),
            frame is Some <==> old(self).items().len() >= frame_len,
            frame matches Some(f) ==> {
                &&& f@ == old(self).items().take(frame_len as int)
                &&& final(self).items() == old(self).items().skip(frame_len as int)
            },
            frame is None ==> final(self).items() == old(self).items(),
    {
        proof {
            use_type_invariant(&*self);
        }
        if ring_occupied_len(&self.ring) < frame_len {
            return None;
        }
        let ghost items0 = self.items();
        let ghost cap = self.capacity();
        let mut f: Vec<u32> = Vec::new();
        let mut k: usize = 0;
        while k < frame_len
            invariant
                k <= frame_len <= items0.len(),
                0 < cap,
                ring_capacity(self.ring) == cap,
                ring_items(self.ring) == items0.skip(k as int),
                f@ == items0.take(k as int),
                items0.len() <= ring_capacity(self.ring),
            decreases frame_len - k,
        {
            let x: Option<u32> = ring_try_pop(&mut self.ring);
            if let Some(v) = x {
                f.push(v);
            }
            assert(items0.skip(k as int).drop_first() =~= items0.skip(k + 1));
            assert(items0.take(k + 1) =~= items0.take(k as int).push(items0[k as int]));
            k += 1;
        }
        Some(f)
    }

    /// Offers each of `samples` in turn, refusing those that find the
    /// queue full; returns how many were refused.
    pub fn push_lossy(&mut self, samples: &[u32]) -> (refused: usize)
        ensures
            0 < final(self).capacity(),
            final(self).items().len() <= final(self).capacity(),
            final(self).capacity() == old(self).capacity(),
            final(self).items() == lossy_push_all(old(self).items(), old(self).capacity(), samples@),
            refused == old(self).items().len() + samples@.len() - kept_len(
                old(self).items().len(),
                old(self).capacity(),
                samples@.len(),
            ),
    {
        proof {
            use_type_invariant(&*self);
        }
        let ghost items0 = self.items();
        let ghost cap = self.capacity();
        let mut refused: usize = 0;
        let mut i: usize = 0;
        while i < samples.len()
            invariant
                i <= samples@.len(),
                0 < cap,
                items0.len() <= cap,
                ring_capacity(self.ring) == cap,
                ring_items(self.ring) == lossy_push_all(items0, cap, samples@.take(i as int)),
                refused == items0.len() + i - kept_len(items0.len(), cap, i as nat),
            decreases samples@.len() - i,
        {
            let x: u32 = samples[i];
            match ring_try_push(&mut self.ring, x) {
                Ok(()) => {},
                Err(_) => {
                    refused = refused + 1;
                },
            }
            assert((items0 + samples@.take(i + 1)) =~= (items0 + samples@.take(i as int)).push(x));
            assert(ring_items(self.ring) =~= lossy_push_all(items0, cap, samples@.take(i + 1)));
            i += 1;
        }
        assert(samples@.take(samples@.len() as int) =~= samples@);
        refused
    }

    /// An output period of `n` samples: the oldest samples held, then
    /// silence once the queue runs dry.
    pub fn pull(&mut self, n: usize) -> (out: Vec<u32>)
        ensures
            0 < final(self).capacity(),
            final(self).items().len() <= final(self).capacity(),
            final(self).capacity() == old(self).capacity(),
            out@ == pulled(old(self).items(), n as nat),
            final(self).items() == after_pull(old(self).items(), n as nat),
    {
        proof {
            use_type_invariant(&*self);
        }
        let ghost items0 = self.items();
        let ghost cap = self.capacity();
        let mut out: Vec<u32> = Vec::new();
        let mut k: usize = 0;
        while k < n
            invariant
                k <= n,
                0 < cap,
                ring_capacity(self.ring) == cap,
                items0.len() <= cap,
                ring_items(self.ring) == after_pull(items0, k as nat),
                out@ =~= pulled(items0, k as nat),
            decreases n - k,
        {
            match ring_try_pop(&mut self.ring) {
                Some(v) => out.push(v),
                None => out.push(0u32),
            }
            assert(ring_items(self.ring) =~= after_pull(items0, (k + 1) as nat));
            k += 1;
        }
        out
    }

    /// Removes and returns every sample held, oldest first.
    pub fn drain(&mut self) -> (out: Vec<u32>)
        ensures
            0 < final(self).capacity(),
            final(self).items().len() <= final(self).capacity(),
            final(self).capacity() == old(self).capacity(),
            out@ == old(self).items(),
            final(self).items() == Seq::<u32>::empty(),
    {
        proof {
            use_type_invariant(&*self);
        }
        let ghost items0 = self.items();
        let ghost cap = self.capacity();
        let mut out: Vec<u32> = Vec::new();
        loop
            invariant_except_break
                0 < cap,
                ring_capacity(self.ring) == cap,
                items0.len() <= cap,
                out@ + ring_items(self.ring) == items0,
            ensures
                0 < cap,
                ring_capacity(self.ring) == cap,
                items0.len() <= cap,
                out@ == items0,
                ring_items(self.ring) == Seq::<u32>::empty(),
            decreases ring_items(self.ring).len(),
        {
            let ghost before = ring_items(self.ring);
            match ring_try_pop(&mut self.ring) {
                Some(v) => {
                    out.push(v);
                    assert(out@ + ring_items(self.ring) =~= items0) by {
                        assert(before =~= seq![v] + before.drop_first());
                    }
                },
                None => {
                    assert(out@ =~= items0);
                    break;
                },
            }
        }
        out
    }

    /// Stores each captured sample of the loopback monitor in turn (see
    /// `loopback_step`); fails at the first mono sample that finds room for
    /// one copy only.
    pub fn push_loopback(&mut self, samples: &[u32], mono: bool) -> (r: Result<(), LoopbackOverflow>)
        ensures
            0 < final(self).capacity(),
            final(self).items().len() <= final(self).capacity(),
            final(self).capacity() == old(self).capacity(),
            r is Ok <==> loopback_push_all(old(self).items(), old(self).capacity(), mono, samples@) is Some,
            r is Ok ==> Some(final(self).items()) == loopback_push_all(
                old(self).items(),
                old(self).capacity(),
                mono,
                samples@,
            ),
    {
        proof {
            use_type_invariant(&*self);
        }
        let ghost items0 = self.items();
        let ghost cap = self.capacity();
        let mut i: usize = 0;
        while i < samples.len()
            invariant
                cap == old(self).capacity(),
                items0 == old(self).items(),
                i <= samples@.len(),
                0 < cap,
                ring_capacity(self.ring) == cap,
                ring_items(self.ring).len() <= cap,
                loopback_push_all(items0, cap, mono, samples@.take(i as int)) == Some(
                    ring_items(self.ring),
                ),
            decreases samples@.len() - i,
        {
            let x: u32 = samples[i];
            assert(samples@.take(i + 1).drop_last() =~= samples@.take(i as int));
            assert(samples@.take(i + 1).last() == x);
            if !ring_is_full(&self.ring) {
                if mono {
                    let first = ring_try_push(&mut self.ring, x);
                    let second = ring_try_push(&mut self.ring, x);
                    if !(first.is_ok() && second.is_ok()) {
                        proof {
                            lemma_loopback_failure_sticks(items0, cap, mono, samples@, i as nat + 1);
                        }
                        return Err(LoopbackOverflow);
                    }
                } else {
                    let _ = ring_try_push(&mut self.ring, x);
                }
            }
            i += 1;
        }
        assert(samples@.take(samples@.len() as int) =~= samples@);
        Ok(())
    }
}

/// A queue that drops from its old end, offered a sample while full,
/// drops its oldest sample and does not store the new one.
pub proof fn lemma_evicting_full_drops_oldest(items: Seq<u32>, cap: nat, x: u32)
    requires
        0 < cap,
        items.len() == cap,
    ensures
        evict_push_all(items, cap, seq![x]) == items.subrange(1, items.len() as int),
{
    assert(seq![x].drop_last() =~= Seq::<u32>::empty());
    assert(evict_push_all(items, cap, seq![x].drop_last()) == items);
    assert(seq![x].last() == x);
    assert(items.drop_first() =~= items.subrange(1, items.len() as int));
}

/// A queue that refuses what does not fit keeps what it held and then the
/// offered samples in order, up to its capacity; those past it are refused,
/// and the number refused is what was offered beyond the room left.
pub proof fn lemma_lossy_keeps_what_fits(items: Seq<u32>, cap: nat, xs: Seq<u32>)
    requires
        items.len() <= cap,
    ensures
        lossy_push_all(items, cap, xs) == (items + xs).take(
            if items.len() + xs.len() <= cap {
                (items.len() + xs.len()) as int
            } else {
                cap as int
            },
        ),
        items.len() + xs.len() - kept_len(items.len(), cap, xs.len()) == if items.len() + xs.len()
            <= cap {
            0
        } else {
            items.len() + xs.len() - cap
        },
{
}

/// While there is room, a queue that drops from its old end loses
/// nothing and keeps the order: it ends up holding what it held followed
/// by what was offered.
pub proof fn lemma_evicting_keeps_all_while_room(items: Seq<u32>, cap: nat, xs: Seq<u32>)
    requires
        items.len() + xs.len() <= cap,
    ensures
        evict_push_all(items, cap, xs) == items + xs,
    decreases xs.len(),
{
    if xs.len() > 0 {
        lemma_evicting_keeps_all_while_room(items, cap, xs.drop_last());
        assert(items + xs.drop_last() + seq![xs.last()] =~= items + xs);
        assert((items + xs.drop_last()).push(xs.last()) =~= items + xs);
    } else {
        assert(items + xs =~= items);
    }
}

/// A queue that drops from its old end never holds more than its
/// capacity.
pub proof fn lemma_evicting_is_bounded(items: Seq<u32>, cap: nat, xs: Seq<u32>)
    requires
        0 < cap,
        items.len() <= cap,
    ensures
        evict_push_all(items, cap, xs).len() <= cap,
    decreases xs.len(),
{
    if xs.len() > 0 {
        lemma_evicting_is_bounded(items, cap, xs.drop_last());
    }
}

/// What is pushed into an empty queue with room for it comes back out of
/// the next pull of that many samples, in order, and leaves the queue
/// empty.
pub proof fn lemma_pull_returns_pushed(cap: nat, xs: Seq<u32>)
    requires
        xs.len() <= cap,
    ensures
        pulled(lossy_push_all(Seq::<u32>::empty(), cap, xs), xs.len()) == xs,
        after_pull(lossy_push_all(Seq::<u32>::empty(), cap, xs), xs.len()) == Seq::<u32>::empty(),
{
    let held = lossy_push_all(Seq::<u32>::empty(), cap, xs);
    assert(Seq::<u32>::empty() + xs =~= xs);
    assert(held =~= xs);
    assert(pulled(held, xs.len()) =~= xs);
    assert(after_pull(held, xs.len()) =~= Seq::<u32>::empty());
}

/// The loopback monitor never fails on a stereo capture, nor on a mono
/// capture when the queue's capacity and fill are even (as they are when
/// it is made with an even capacity and drained whole).
pub proof fn lemma_loopback_survives(items: Seq<u32>, cap: nat, mono: bool, xs: Seq<u32>)
    requires
        items.len() <= cap,
        mono ==> cap % 2 == 0 && items.len() % 2 == 0,
    ensures
        loopback_push_all(items, cap, mono, xs) matches Some(s) && s.len() <= cap && (mono
            ==> s.len() % 2 == 0),
    decreases xs.len(),
{
    if xs.len() > 0 {
        lemma_loopback_survives(items, cap, mono, xs.drop_last());
    }
}

/// The loopback monitor on a capture that is not mono stores every
/// captured sample once, in order, until the queue is full, and then stores
/// nothing more; it never fails.
pub proof fn lemma_loopback_stores_each_sample_once(items: Seq<u32>, cap: nat, xs: Seq<u32>)
    requires
        items.len() <= cap,
    ensures
        loopback_push_all(items, cap, false, xs) == Some(
            (items + xs).take(
                if items.len() + xs.len() <= cap {
                    (items.len() + xs.len()) as int
                } else {
                    cap as int
                },
            ),
        ),
    decreases xs.len(),
{
    if xs.len() > 0 {
        let xs0 = xs.drop_last();
        lemma_loopback_stores_each_sample_once(items, cap, xs0);
        let n0: int = if items.len() + xs0.len() <= cap {
            (items.len() + xs0.len()) as int
        } else {
            cap as int
        };
        let n: int = if items.len() + xs.len() <= cap {
            (items.len() + xs.len()) as int
        } else {
            cap as int
        };
        let before = (items + xs0).take(n0);
        assert(before.len() == n0);
        if n0 >= cap {
            assert((items + xs).take(n) =~= before);
        } else {
            assert((items + xs).take(n) =~= before.push(xs.last()));
        }
    } else {
        assert((items + xs).take(items.len() as int) =~= items);
    }
}

/// The loopback monitor on a mono capture stores every captured sample
/// twice in a row, in order, while the queue has room for both copies of
/// each.
pub proof fn lemma_loopback_doubles_mono_samples(items: Seq<u32>, cap: nat, xs: Seq<u32>)
    requires
        items.len() + 2 * xs.len() <= cap,
    ensures
        loopback_push_all(items, cap, true, xs) == Some(
            items + Seq::new(2 * xs.len(), |k: int| xs[k / 2]),
        ),
    decreases xs.len(),
{
    if xs.len() > 0 {
        let xs0 = xs.drop_last();
        lemma_loopback_doubles_mono_samples(items, cap, xs0);
        let d0 = Seq::new(2 * xs0.len(), |k: int| xs0[k / 2]);
        let d = Seq::new(2 * xs.len(), |k: int| xs[k / 2]);
        let x = xs.last();
        assert forall|k: int| 0 <= k < d.len() implies #[trigger] d[k] == (d0.push(x).push(x))[k] by {
            if k < d0.len() {
                assert(k / 2 < xs0.len());
            } else {
                assert(k / 2 == xs.len() - 1);
            }
        }
        assert(d =~= d0.push(x).push(x));
        assert(items + d =~= (items + d0).push(x).push(x));
    } else {
        assert(items + Seq::new(0, |k: int| xs[k / 2]) =~= items);
    }
}

/// Once the loopback monitor has failed on a prefix of its input, it has
/// failed on the whole input.
proof fn lemma_loopback_failure_sticks(items: Seq<u32>, cap: nat, mono: bool, xs: Seq<u32>, j: nat)
    requires
        j <= xs.len(),
        loopback_push_all(items, cap, mono, xs.take(j as int)) is None,
    ensures
        loopback_push_all(items, cap, mono, xs) is None,
    decreases xs.len() - j,
{
    if j < xs.len() {
        assert(xs.take(j as int + 1).drop_last() =~= xs.take(j as int));
        lemma_loopback_failure_sticks(items, cap, mono, xs, (j + 1) as nat);
    } else {
        assert(xs.take(j as int) =~= xs);
    }
}

} // verus!
