//! The distance estimate: a ring of the latest accepted range samples and their mean.
use vstd::prelude::*;
use heapless::Deque;

verus! {

/// Number of samples the estimate averages over.
pub const WINDOW: usize = 4;

#[verifier::external_type_specification]
#[verifier::external_body]
#[verifier::reject_recursive_types(T)]
pub struct ExDeque<T, const N: usize>(Deque<T, N>);

/// The samples a ring holds, oldest first.
pub uninterp spec fn ring_samples(d: Deque<u16, 4>) -> Seq<u16>;

/// Relies on `heapless::Deque::new`: the deque starts empty.
#[verifier::external_body]
fn ring_new() -> (r: Deque<u16, 4>)
    ensures
        ring_samples(r) == Seq::<u16>::empty(),
{
    Deque::new()
}

/// Relies on `heapless::Deque::len`: the number of items held, never above the capacity 4.
#[verifier::external_body]
fn ring_len(d: &Deque<u16, 4>) -> (r: usize)
    ensures
        r == ring_samples(*d).len(),
        r <= 4,
{
    d.len()
}

/// Relies on `heapless::Deque::pop_front`: removes and returns the oldest item, if any.
#[verifier::external_body]
fn ring_pop_front(d: &mut Deque<u16, 4>) -> (r: Option<u16>)
    ensures
        ring_samples(*old(d)).len() == 0 ==> r is None && ring_samples(*final(d)) == ring_samples(*old(d)),
        ring_samples(*old(d)).len() > 0 ==> r == Some(ring_samples(*old(d))[0])
            && ring_samples(*final(d)) == ring_samples(*old(d)).drop_first(),
{
    d.pop_front()
}

/// Relies on `heapless::Deque::push_back`: appends the item unless the deque is full.
#[verifier::external_body]
fn ring_push_back(d: &mut Deque<u16, 4>, v: u16) -> (r: bool)
    ensures
        r == (ring_samples(*old(d)).len() < 4),
        r ==> ring_samples(*final(d)) == ring_samples(*old(d)).push(v),
        !r ==> ring_samples(*final(d)) == ring_samples(*old(d)),
{
    d.push_back(v).is_ok()
}

/// Relies on `heapless::Deque::iter`: yields the items from front to back.
#[verifier::external_body]
fn ring_items(d: &Deque<u16, 4>) -> (r: Vec<u16>)
    ensures
        r@ == ring_samples(*d),
{
    d.iter().copied().collect()
}

pub open spec fn sum_of(s: Seq<u16>) -> int
    decreases s.len(),
{
    if s.len() == 0 {
        0
    } else {
        sum_of(s.drop_last()) + s.last()
    }
}

/// The last `n` items of `s` (all of them if there are fewer).
pub open spec fn last_n(s: Seq<u16>, n: nat) -> Seq<u16> {
    if s.len() <= n {
        s
    } else {
        s.subrange(s.len() - n, s.len() as int)
    }
}

/// Integer mean of the samples, defined iff there is at least one.
pub open spec fn mean_of(s: Seq<u16>) -> Option<u16> {
    if s.len() == 0 {
        None
    } else {
        Some((sum_of(s) / (s.len() as int)) as u16)
    }
}

proof fn lemma_sum_bound(s: Seq<u16>)
    ensures
        0 <= sum_of(s) <= s.len() * 65535,
    decreases s.len(),
{
    if s.len() > 0 {
        lemma_sum_bound(s.drop_last());
    }
}

/// A bounded ring of the most recent range samples.
pub struct DistanceEstimate {
    samples: Deque<u16, 4>,
}

impl DistanceEstimate {
    /// The samples held, oldest first.
    pub closed spec fn samples(&self) -> Seq<u16> {
        ring_samples(self.samples)
    }

    pub closed spec fn wf(&self) -> bool {
        self.samples().len() <= WINDOW
    }

    pub fn new() -> (r: Self)
        ensures
            r.wf(),
            r.samples() == Seq::<u16>::empty(),
    {
        DistanceEstimate { samples: ring_new() }
    }

    /// Accepts a sample, evicting the oldest one when the ring is full.
    pub fn push(&mut self, d: u16)
        requires
            old(self).wf(),
        ensures
            final(self).wf(),
            final(self).samples() == last_n(old(self).samples().push(d), WINDOW as nat),
    {
        if ring_len(&self.samples) == WINDOW {
            let _ = ring_pop_front(&mut self.samples);
        }
        let _ = ring_push_back(&mut self.samples, d);
        proof {
            let s = old(self).samples().push(d);
            if s.len() > WINDOW {
                assert(old(self).samples().drop_first().push(d) =~= s.subrange(s.len() - 4, s.len() as int));
            }
        }
    }

    /// Number of samples held.
    pub fn len(&self) -> (r: usize)
        requires
            self.wf(),
        ensures
            r == self.samples().len(),
    {
        ring_len(&self.samples)
    }

    /// The mean of the samples, `None` while there are none.
    pub fn mean(&self) -> (r: Option<u16>)
        requires
            self.wf(),
        ensures
            r == mean_of(self.samples()),
    {
        let items = ring_items(&self.samples);
        let mut sum: u32 = 0;
        let mut i: usize = 0;
        while i < items.len()
            invariant
                i <= items@.len(),
                items@.len() <= WINDOW,
                sum == sum_of(items@.subrange(0, i as int)),
            decreases items@.len() - i,
        {
            proof {
                lemma_sum_bound(items@.subrange(0, i as int));
                assert(items@.subrange(0, i + 1).drop_last() =~= items@.subrange(0, i as int));
            }
            sum = sum + items[i] as u32;
            i = i + 1;
        }
        proof {
            assert(items@.subrange(0, items@.len() as int) =~= items@);
        }
        if items.len() == 0 {
            None
        } else {
            proof {
                let n = items@.len() as int;
                lemma_sum_bound(items@);
                assert((sum as int) / n <= 65535) by {
                    vstd::arithmetic::div_mod::lemma_div_is_ordered(sum as int, n * 65535, n);
                    vstd::arithmetic::div_mod::lemma_div_multiples_vanish(65535, n);
                }
            }
            Some((sum / items.len() as u32) as u16)
        }
    }
}

} // verus!
