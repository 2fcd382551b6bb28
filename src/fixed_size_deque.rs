//! A ring of exactly `N` optional slots backed by a `VecDeque`.
use std::collections::VecDeque;
use vstd::prelude::*;

verus! {

/// The sequence `s` with only its last `n` items kept (all of it when it is shorter).
pub open spec fn keep_last<A>(s: Seq<A>, n: nat) -> Seq<A> {
    if s.len() <= n {
        s
    } else {
        s.subrange(s.len() - n, s.len() as int)
    }
}

/// What a push of `item` does to the slots `s` of a ring of capacity `n`:
/// the item enters at the back and the oldest slot leaves at the front.
pub open spec fn pushed<A>(s: Seq<Option<A>>, item: A, n: nat) -> Seq<Option<A>> {
    keep_last(s.push(Some(item)), n)
}

/// The slots `s` after pushing each of `items` in turn.
pub open spec fn pushed_all<A>(s: Seq<Option<A>>, items: Seq<A>, n: nat) -> Seq<Option<A>>
    decreases items.len(),
{
    if items.len() == 0 {
        s
    } else {
        pushed(pushed_all(s, items.drop_last(), n), items.last(), n)
    }
}

/// The items as filled slots.
pub open spec fn filled<A>(items: Seq<A>) -> Seq<Option<A>> {
    items.map_values(|x: A| Some(x))
}

/// A ring of capacity `n` always holds the last `n` slots of everything it was
/// given: its slots at the start followed by each pushed item.
pub proof fn lemma_pushed_all_keeps_last<A>(s: Seq<Option<A>>, items: Seq<A>, n: nat)
    requires
        s.len() == n,
    ensures
        pushed_all(s, items, n) == keep_last(s + filled(items), n),
        pushed_all(s, items, n).len() == n,
    decreases items.len(),
{
    if items.len() == 0 {
        assert(s + filled(items) =~= s);
    } else {
        let rest = items.drop_last();
        lemma_pushed_all_keeps_last(s, rest, n);
        let t = s + filled(rest);
        let k = keep_last(t, n);
        assert(t.push(Some(items.last())) =~= s + filled(items));
        assert(keep_last(k.push(Some(items.last())), n) =~= keep_last(t.push(Some(items.last())), n));
    }
}

/// Once at least `n` items have been pushed into a ring of capacity `n`, it holds
/// exactly the last `n` of them, oldest first, and nothing from before.
pub proof fn lemma_ring_holds_last_pushed<A>(s: Seq<Option<A>>, items: Seq<A>, n: nat)
    requires
        s.len() == n,
        items.len() >= n,
    ensures
        pushed_all(s, items, n) == filled(items.subrange(items.len() - n, items.len() as int)),
{
    lemma_pushed_all_keeps_last(s, items, n);
    assert(keep_last(s + filled(items), n) =~= filled(
        items.subrange(items.len() - n, items.len() as int),
    ));
}

/// `b` is a copy of the slot `a` as `Clone` makes it.
pub open spec fn slot_cloned<T: Clone>(a: Option<T>, b: Option<T>) -> bool {
    match (a, b) {
        (None, None) => true,
        (Some(x), Some(y)) => cloned(x, y),
        _ => false,
    }
}

pub struct FixedSizeDeque<const N: usize, T> where T: Clone {
    deque: VecDeque<Option<T>>,
}

impl<const N: usize, T: Clone> View for FixedSizeDeque<N, T> {
    type V = Seq<Option<T>>;

    closed spec fn view(&self) -> Seq<Option<T>> {
        self.deque@
    }
}

impl<const N: usize, T: Clone> FixedSizeDeque<N, T> {
    /// Well-formed: exactly `N` slots.
    pub closed spec fn wf(&self) -> bool {
        self.deque@.len() == N
    }

    /// A ring whose `N` slots are all empty.
    pub fn new() -> (r: Self)
        ensures
            r.wf(),
            r@ == Seq::new(N as nat, |i: int| None::<T>),
    {
        let mut deque: VecDeque<Option<T>> = VecDeque::new();
        let mut i: usize = 0;
        while i < N
            invariant
                i <= N,
                deque@ == Seq::new(i as nat, |j: int| None::<T>),
            decreases N - i,
        {
            deque.push_back(None);
            i = i + 1;
            assert(deque@ =~= Seq::new(i as nat, |j: int| None::<T>));
        }
        FixedSizeDeque { deque }
    }

    /// The number of slots, `N`, whatever has been pushed.
    pub fn len(&self) -> (r: usize)
        requires
            self.wf(),
        ensures
            r == N,
            self@.len() == N,
    {
        self.deque.len()
    }

    /// Appends `item` as the newest slot and drops the oldest one.
    pub fn push(&mut self, item: T)
        requires
            old(self).wf(),
        ensures
            final(self).wf(),
            final(self)@ == pushed(old(self)@, item, N as nat),
            final(self)@.len() == N,
    {
        if N == 0 {
            assert(pushed(self@, item, 0) =~= Seq::<Option<T>>::empty());
            return;
        }
        let ghost before = self.deque@;
        self.deque.pop_front();
        self.deque.push_back(Some(item));
        assert(self.deque@ =~= pushed(before, item, N as nat));
    }

    /// A copy of the slots, oldest first.
    pub fn get(&self) -> (r: Vec<Option<T>>)
        requires
            self.wf(),
        ensures
            r@.len() == N,
            self@.len() == N,
            forall|i: int| 0 <= i < N ==> slot_cloned(#[trigger] self@[i], r@[i]),
    {
        let mut result: Vec<Option<T>> = Vec::new();
        let mut i: usize = 0;
        while i < N
            invariant
                i <= N,
                self.deque@.len() == N,
                result@.len() == i,
                forall|j: int| 0 <= j < i ==> slot_cloned(#[trigger] self.deque@[j], result@[j]),
            decreases N - i,
        {
            let item = self.deque[i].clone();
            result.push(item);
            i = i + 1;
        }
        result
    }
}

} // verus!
