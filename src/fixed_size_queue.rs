//! A window of exactly `N` optional slots that shifts its contents on each push.
use vstd::prelude::*;
use crate::fixed_size_deque::{pushed, slot_cloned};

verus! {

pub struct FixedSizeQueue<const N: usize, T> where T: Clone {
    queue: Vec<Option<T>>,
}

impl<const N: usize, T: Clone> View for FixedSizeQueue<N, T> {
    type V = Seq<Option<T>>;

    closed spec fn view(&self) -> Seq<Option<T>> {
        self.queue@
    }
}

impl<const N: usize, T: Clone> FixedSizeQueue<N, T> {
    /// Well-formed: exactly `N` slots.
    pub closed spec fn wf(&self) -> bool {
        self.queue@.len() == N
    }

    /// A window whose `N` slots are all empty.
    pub fn new() -> (r: Self)
        ensures
            r.wf(),
            r@ == Seq::new(N as nat, |i: int| None::<T>),
    {
        let mut queue: Vec<Option<T>> = Vec::new();
        let mut i: usize = 0;
        while i < N
            invariant
                i <= N,
                queue@ == Seq::new(i as nat, |j: int| None::<T>),
            decreases N - i,
        {
            queue.push(None);
            i = i + 1;
            assert(queue@ =~= Seq::new(i as nat, |j: int| None::<T>));
        }
        FixedSizeQueue { queue }
    }

    /// Shifts every slot one place towards the front, dropping the oldest, and
    /// puts `item` in the last slot.
    pub fn push(&mut self, item: T)
        requires
            old(self).wf(),
        ensures
            final(self).wf(),
            final(self)@ == pushed(old(self)@, item, N as nat),
            final(self)@.len() == N,
    {
        if N == 0 {
            assert(pushed(self@, item, 0) =~= Seq::<Option<T>>::empty());
            return;
        }
        let ghost before = self.queue@;
        self.queue.remove(0);
        self.queue.push(Some(item));
        assert(self.queue@ =~= pushed(before, item, N as nat));
    }

    /// A copy of the slots, oldest first.
    pub fn get(&self) -> (r: Vec<Option<T>>)
        requires
            self.wf(),
        ensures
            r@.len() == N,
            self@.len() == N,
            forall|i: int| 0 <= i < N ==> slot_cloned(#[trigger] self@[i], r@[i]),
    {
        let mut result: Vec<Option<T>> = Vec::new();
        let mut i: usize = 0;
        while i < N
            invariant
                i <= N,
                self.queue@.len() == N,
                result@.len() == i,
                forall|j: int| 0 <= j < i ==> slot_cloned(#[trigger] self.queue@[j], result@[j]),
            decreases N - i,
        {
            let item = self.queue[i].clone();
            result.push(item);
            i = i + 1;
        }
        result
    }
}

} // verus!
