//! A sliding window over the most recent values of a stream.
use std::collections::VecDeque;
use vstd::prelude::*;

verus! {

/// The last `n` elements of `s` (all of `s` when it is shorter).
pub open spec fn last_n<T>(s: Seq<T>, n: nat) -> Seq<T> {
    if s.len() <= n {
        s
    } else {
        s.subrange(s.len() - n, s.len() as int)
    }
}

/// Holds the last `capacity` values pushed into it, oldest first.
pub struct SlidingWindow<T> {
    capacity: usize,
    items: VecDeque<T>,
    pushed: Ghost<Seq<T>>,
}

impl<T> View for SlidingWindow<T> {
    type V = Seq<T>;

    closed spec fn view(&self) -> Seq<T> {
        self.items@
    }
}

impl<T> SlidingWindow<T> {
    /// How many values the window keeps.
    pub closed spec fn spec_capacity(&self) -> nat {
        self.capacity as nat
    }

    /// Every value pushed since the window was created or cleared, oldest first.
    pub closed spec fn history(&self) -> Seq<T> {
        self.pushed@
    }

    /// The window holds the last `capacity` values of its history.
    #[verifier::type_invariant]
    closed spec fn holds_last_values(self) -> bool {
        self.items@ == last_n(self.pushed@, self.capacity as nat)
    }

    /// An empty window that keeps the last `capacity` values.
    pub fn new(capacity: usize) -> (w: SlidingWindow<T>)
        ensures
            w.spec_capacity() == capacity,
            w.history() == Seq::<T>::empty(),
            w@ == Seq::<T>::empty(),
    {
        SlidingWindow { capacity, items: VecDeque::new(), pushed: Ghost(Seq::empty()) }
    }

    /// How many values the window keeps.
    pub fn capacity(&self) -> (c: usize)
        ensures
            c == self.spec_capacity(),
    {
        self.capacity
    }

    /// How many values the window holds now.
    pub fn len(&self) -> (n: usize)
        ensures
            n == self@.len(),
    {
        self.items.len()
    }

    /// Whether the window holds exactly `capacity` values.
    pub fn is_full(&self) -> (r: bool)
        ensures
            r == (self@.len() == self.spec_capacity()),
    {
        self.items.len() == self.capacity
    }

    /// The values in the window, oldest first: the last `capacity` values of its
    /// history.
    pub fn values(&self) -> (v: &VecDeque<T>)
        ensures
            v@ == self@,
            v@ == last_n(self.history(), self.spec_capacity()),
    {
        proof {
            use_type_invariant(self);
        }
        &self.items
    }

    /// The `i`-th value in the window, oldest first.
    pub fn get(&self, i: usize) -> (x: &T)
        requires
            i < self@.len(),
        ensures
            *x == self@[i as int],
    {
        &self.items[i]
    }

    /// Append a value, dropping the oldest one when the window would overflow: the
    /// window then holds the last `capacity` values of its history.
    pub fn push(&mut self, x: T)
        ensures
            final(self).spec_capacity() == old(self).spec_capacity(),
            final(self).history() == old(self).history().push(x),
            final(self)@ == last_n(old(self).history().push(x), old(self).spec_capacity()),
    {
        proof {
            use_type_invariant(&*self);
            lemma_last_n_push(self.pushed@, x, self.capacity as nat);
        }
        let capacity = self.capacity;
        let mut taken = SlidingWindow {
            capacity,
            items: VecDeque::new(),
            pushed: Ghost(Seq::empty()),
        };
        std::mem::swap(self, &mut taken);
        let SlidingWindow { capacity: _, items: mut items, pushed } = taken;
        let ghost h = pushed@.push(x);
        items.push_back(x);
        if items.len() > capacity {
            items.pop_front();
        }
        *self = SlidingWindow { capacity, items, pushed: Ghost(h) };
    }

    /// Empty the window and forget its history.
    pub fn clear(&mut self)
        ensures
            final(self).spec_capacity() == old(self).spec_capacity(),
            final(self).history() == Seq::<T>::empty(),
            final(self)@ == Seq::<T>::empty(),
    {
        let capacity = self.capacity;
        *self = SlidingWindow { capacity, items: VecDeque::new(), pushed: Ghost(Seq::empty()) };
    }
}

/// Keeping the last `n` values of a stream one push at a time: append the new value
/// and drop the oldest one when there are more than `n`.
pub proof fn lemma_last_n_push<T>(s: Seq<T>, x: T, n: nat)
    ensures
        ({
            let w = last_n(s, n).push(x);
            last_n(s.push(x), n) == if w.len() > n {
                w.subrange(1, w.len() as int)
            } else {
                w
            }
        }),
{
    let w = last_n(s, n).push(x);
    let t = s.push(x);
    if s.len() >= n {
        assert(last_n(t, n) =~= w.subrange(1, w.len() as int));
    }
}

/// After at least `n` pushes the window is full, and before that it holds every
/// value pushed so far.
pub proof fn lemma_last_n_len<T>(s: Seq<T>, n: nat)
    ensures
        last_n(s, n).len() == if s.len() <= n {
            s.len()
        } else {
            n
        },
        s.len() <= n ==> last_n(s, n) == s,
{
}

} // verus!
