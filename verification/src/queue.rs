//! A first-in, first-out queue that never holds more than a fixed number of
//! items: once it is full, each new item pushes the oldest one out.

use std::collections::VecDeque;
use vstd::prelude::*;

verus! {

/// What a queue bounded by `cap` keeps of everything pushed so far: the last
/// `cap` items of `s`, in the order in which they were pushed.
pub open spec fn retained<T>(s: Seq<T>, cap: nat) -> Seq<T> {
    if s.len() <= cap {
        s
    } else {
        s.subrange(s.len() - cap, s.len() as int)
    }
}

/// A queue of at most `N` items. Its view is the sequence of the items it
/// holds, oldest first.
pub struct LimitedQueue<T, const N: usize> {
    queue: VecDeque<T>,
    max_size: usize,
}

impl<T, const N: usize> View for LimitedQueue<T, N> {
    type V = Seq<T>;

    closed spec fn view(&self) -> Seq<T> {
        self.queue@
    }
}

impl<T: Copy, const N: usize> LimitedQueue<T, N> {
    /// The queue respects its bound.
    pub closed spec fn wf(&self) -> bool {
        &&& self.max_size == N
        &&& self.queue@.len() <= N
    }

    /// A well-formed queue holds at most `N` items.
    pub proof fn lemma_bounded(&self)
        requires
            self.wf(),
        ensures
            self@.len() <= N,
    {
    }

    /// An empty queue.
    pub fn new() -> (q: LimitedQueue<T, N>)
        ensures
            q.wf(),
            q@ == Seq::<T>::empty(),
    {
        LimitedQueue { queue: VecDeque::new(), max_size: N }
    }

    /// The number of items held.
    pub fn len(&self) -> (n: usize)
        requires
            self.wf(),
        ensures
            n == self@.len(),
            n <= N,
    {
        self.queue.len()
    }

    /// Appends `element`; if that makes the queue longer than `N`, the oldest
    /// item leaves.
    pub fn push(&mut self, element: T)
        requires
            old(self).wf(),
        ensures
            final(self).wf(),
            final(self)@ == retained(old(self)@.push(element), N as nat),
            final(self)@.len() <= N,
    {
        self.queue.push_back(element);
        if self.queue.len() > self.max_size {
            self.queue.pop_front();
        }
    }

    /// Appends `elements` in order, then lets the oldest items leave until no
    /// more than `N` are held.
    pub fn push_slice(&mut self, elements: &Vec<T>)
        requires
            old(self).wf(),
        ensures
            final(self).wf(),
            final(self)@ == retained(old(self)@ + elements@, N as nat),
            final(self)@.len() <= N,
    {
        let ghost total = self.queue@ + elements@;
        let mut i: usize = 0;
        while i < elements.len()
            invariant
                i <= elements.len(),
                self.max_size == N,
                self.queue@ == old(self).queue@ + elements@.subrange(0, i as int),
            decreases elements.len() - i,
        {
            self.queue.push_back(elements[i]);
            i += 1;
            assert(self.queue@ =~= old(self).queue@ + elements@.subrange(0, i as int));
        }
        assert(self.queue@ =~= total);
        while self.queue.len() > self.max_size
            invariant
                self.max_size == N,
                self.queue@.len() <= total.len(),
                self.queue@.len() >= N || self.queue@.len() == total.len(),
                self.queue@ == total.subrange(total.len() - self.queue@.len(), total.len() as int),
            decreases self.queue@.len(),
        {
            self.queue.pop_front();
            assert(self.queue@ =~= total.subrange(
                total.len() - self.queue@.len(),
                total.len() as int,
            ));
        }
        assert(self.queue@ =~= retained(total, N as nat));
    }

    /// Appends `count` copies of `element`, with the same eviction as
    /// [`LimitedQueue::push_slice`].
    pub fn push_repeated(&mut self, element: T, count: usize)
        requires
            old(self).wf(),
        ensures
            final(self).wf(),
            final(self)@ == retained(
                old(self)@ + Seq::new(count as nat, |k: int| element),
                N as nat,
            ),
            final(self)@.len() <= N,
    {
        let ghost fill = Seq::new(count as nat, |k: int| element);
        let mut i: usize = 0;
        while i < count
            invariant
                i <= count,
                self.wf(),
                fill == Seq::new(count as nat, |k: int| element),
                self@ == retained(old(self)@ + fill.subrange(0, i as int), N as nat),
            decreases count - i,
        {
            let ghost before = old(self)@ + fill.subrange(0, i as int);
            self.push(element);
            i += 1;
            proof {
                assert(before.push(element) =~= old(self)@ + fill.subrange(0, i as int));
                lemma_retained_twice(before, seq![element], N as nat);
                assert(before + seq![element] =~= before.push(element));
                assert(retained(before, N as nat) + seq![element] =~= retained(before, N as nat).push(
                    element,
                ));
            }
        }
        assert(fill.subrange(0, count as int) =~= fill);
    }

    /// A copy of the items held, oldest first. The queue is left as it is.
    pub fn snapshot(&self) -> (items: Vec<T>)
        requires
            self.wf(),
        ensures
            items@ == self@,
    {
        let mut items: Vec<T> = Vec::new();
        let mut i: usize = 0;
        while i < self.queue.len()
            invariant
                i <= self.queue@.len(),
                items@ == self.queue@.subrange(0, i as int),
            decreases self.queue@.len() - i,
        {
            items.push(self.queue[i]);
            i += 1;
            assert(items@ =~= self.queue@.subrange(0, i as int));
        }
        assert(items@ =~= self.queue@);
        items
    }
}

/// What is retained is as long as the bound allows and no longer, and it is
/// the tail of what was pushed: item for item, in the same order.
pub proof fn lemma_retained_latest<T>(s: Seq<T>, cap: nat)
    ensures
        retained(s, cap).len() == if s.len() <= cap {
            s.len()
        } else {
            cap
        },
        forall|i: int|
            0 <= i < retained(s, cap).len() ==> #[trigger] retained(s, cap)[i] == s[s.len()
                - retained(s, cap).len() + i],
{
}

/// Evicting early changes nothing: pushing `later` onto what a bounded queue
/// kept of `earlier` leaves the same items as bounding everything pushed at
/// once. So after any run of pushes the queue holds the last `cap` items of
/// all that was ever pushed, in order.
pub proof fn lemma_retained_twice<T>(earlier: Seq<T>, later: Seq<T>, cap: nat)
    ensures
        retained(retained(earlier, cap) + later, cap) == retained(earlier + later, cap),
        retained(earlier + later, cap).len() <= cap,
{
    assert(retained(retained(earlier, cap) + later, cap) =~= retained(earlier + later, cap));
}

} // verus!
