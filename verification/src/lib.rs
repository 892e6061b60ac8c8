//! A bounded vector backed by a fixed block of `N` slots.
//!
//! The container behaves like a resizable list for push, pop and indexed
//! access, except that it can never grow past the capacity `N` chosen at the
//! type level: a push at full capacity is rejected with an overflow error
//! instead of reallocating.
//!
//! The heart of the design is the slot-lifecycle discipline. The storage is a
//! block of `N` slots; each slot is either live (it holds exactly one value)
//! or vacant (it holds no value and must never be read). The live slots always
//! form a contiguous prefix `[0, length)`, so the container is a stack: values
//! become live one at a time at the end via `push`, and stop being live one at
//! a time from the end via `pop` (ownership passes to the caller) or via
//! `teardown` (each live value is dropped exactly once, last-pushed first,
//! and vacant slots are never touched).

use vstd::prelude::*;

verus! {

/// A vector of at most `N` elements stored in a fixed block of `N` slots.
///
/// Slots `[0, idx)` are live; slots `[idx, N)` are vacant (`None`) and hold no
/// value. The abstract view of the container is the sequence of live values
/// in the order they were pushed.
pub struct ArrayVec<T, const N: usize> {
    slots: Vec<Option<T>>,
    idx: usize,
}

impl<T, const N: usize> View for ArrayVec<T, N> {
    type V = Seq<T>;

    closed spec fn view(&self) -> Seq<T> {
        Seq::new(self.idx as nat, |i: int| self.slots@[i].unwrap())
    }
}

impl<T, const N: usize> ArrayVec<T, N> {
    /// The validity boundary: the block holds exactly `N` slots, the count of
    /// live slots never exceeds `N`, and every slot below the boundary holds
    /// a value.
    #[verifier::type_invariant]
    spec fn wf(self) -> bool {
        &&& self.slots@.len() == N
        &&& self.idx <= N
        &&& forall|i: int| 0 <= i < self.idx ==> self.slots@[i] is Some
    }

    /// Creates an empty container. No slot holds a value yet, whatever `T` is.
    pub fn new() -> (r: Self)
        ensures
            r@ == Seq::<T>::empty(),
    {
        let mut slots: Vec<Option<T>> = Vec::new();
        let mut i: usize = 0;
        while i < N
            invariant
                i <= N,
                slots@.len() == i,
            decreases N - i,
        {
            slots.push(None);
            i = i + 1;
        }
        let r = ArrayVec { slots, idx: 0 };
        proof {
            assert(r@ =~= Seq::<T>::empty());
        }
        r
    }

    /// Returns the maximal number of elements this container can hold.
    pub fn capacity(&self) -> (r: usize)
        ensures
            r == N,
    {
        N
    }

    /// Returns the number of elements currently stored, which never exceeds
    /// the capacity.
    pub fn length(&self) -> (r: usize)
        ensures
            r == self@.len(),
            r <= N,
    {
        proof {
            use_type_invariant(self);
        }
        self.idx
    }

    /// Attempts to add `value` at the end. At full capacity the push is
    /// rejected with an overflow error and the container is left unchanged;
    /// otherwise the vacant slot at the boundary becomes live, holding
    /// `value`. This is the only way a slot becomes live.
    pub fn push(&mut self, value: T) -> (r: Result<(), &'static str>)
        ensures
            r is Ok <==> old(self)@.len() < N,
            old(self)@.len() < N ==> final(self)@ == old(self)@.push(value),
            old(self)@.len() >= N ==> r is Err && final(self)@ == old(self)@,
    {
        proof {
            use_type_invariant(&*self);
        }
        if self.idx < N {
            let i = self.idx;
            self.slots[i] = Some(value);
            self.idx = i + 1;
            proof {
                assert(self@ =~= old(self)@.push(value));
            }
            Ok(())
        } else {
            Err("cannot push: this ArrayVec is full")
        }
    }

    /// Attempts to remove the last element. On an empty container it returns
    /// `None` and changes nothing; otherwise the last live slot becomes
    /// vacant and its value is handed to the caller, who owns it thereafter.
    /// This is the only way a slot stops being live without the value being
    /// dropped inside the container.
    pub fn pop(&mut self) -> (r: Option<T>)
        ensures
            r is Some <==> old(self)@.len() > 0,
            old(self)@.len() == 0 ==> final(self)@ == old(self)@,
            old(self)@.len() > 0 ==> r == Some(old(self)@.last()),
            old(self)@.len() > 0 ==> final(self)@ == old(self)@.drop_last(),
    {
        proof {
            use_type_invariant(&*self);
        }
        if self.idx == 0 {
            None
        } else {
            let i = self.idx - 1;
            self.idx = i;
            let cell = Option::take(&mut self.slots[i]);
            proof {
                assert(self@ =~= old(self)@.drop_last());
            }
            cell
        }
    }

    /// Returns a reference to the live element at position `i`. An index at
    /// or past the validity boundary is a caller error, never answered with a
    /// vacant slot's contents.
    pub fn index(&self, i: usize) -> (r: &T)
        requires
            i < self@.len(),
        ensures
            *r == self@[i as int],
    {
        proof {
            use_type_invariant(self);
        }
        match &self.slots[i] {
            Some(v) => v,
            None => vstd::pervasive::unreached(),
        }
    }

    /// Overwrites the live element at position `i` with `value`; the value it
    /// held before is dropped in place. This is the write half of the live
    /// view: it can change live slots only, never move the boundary.
    pub fn set_at(&mut self, i: usize, value: T)
        requires
            i < old(self)@.len(),
        ensures
            final(self)@ == old(self)@.update(i as int, value),
    {
        proof {
            use_type_invariant(&*self);
        }
        // Narrow the validity boundary to `i` while the slot is rewritten, so
        // that no intermediate state claims a live slot it cannot back.
        let boundary = self.idx;
        self.idx = i;
        self.slots[i] = Some(value);
        self.idx = boundary;
        proof {
            assert(self@ =~= old(self)@.update(i as int, value));
        }
    }

    /// Brings the container to the no-live-slots state before its storage is
    /// released: it repeatedly applies the same removal logic as `pop`, and
    /// each removed value is dropped as it goes out of scope, last-pushed
    /// first. Afterwards every slot is vacant, so releasing the storage block
    /// drops no slot at all — no value is ever dropped twice, and no vacant
    /// slot is ever dropped.
    pub fn teardown(&mut self)
        ensures
            final(self)@ == Seq::<T>::empty(),
    {
        while self.length() > 0
            decreases self@.len(),
        {
            let _last = self.pop();
        }
        proof {
            assert(self@ =~= Seq::<T>::empty());
        }
    }

    /// Law of teardown ordering: removing every element by the same loop as
    /// `teardown` hands each live value out exactly once, in the exact
    /// reverse of the order it was pushed, and never reads a vacant slot.
    /// This function performs that removal loop and returns the removed
    /// values in removal order, which is the reversed view.
    pub fn drain_reversed(&mut self) -> (removed: Vec<T>)
        ensures
            removed@ == old(self)@.reverse(),
            final(self)@ == Seq::<T>::empty(),
    {
        let ghost full = self@;
        let mut removed: Vec<T> = Vec::new();
        while self.length() > 0
            invariant
                self@.len() + removed@.len() == full.len(),
                self@ == full.subrange(0, self@.len() as int),
                forall|j: int| 0 <= j < removed@.len() ==> removed@[j] == full[full.len() - 1 - j],
            decreases self@.len(),
        {
            let ghost before = self@;
            match self.pop() {
                Some(v) => {
                    removed.push(v);
                    proof {
                        assert(before =~= full.subrange(0, before.len() as int));
                        assert(before.last() == full[before.len() - 1]);
                        assert(self@ =~= full.subrange(0, self@.len() as int));
                    }
                },
                None => (),
            }
        }
        proof {
            assert(self@ =~= Seq::<T>::empty());
            assert(removed@ =~= full.reverse());
        }
        removed
    }

    /// Builds a container by pushing each element of `source` in order. A
    /// source longer than the capacity is a caller error — there is no way to
    /// signal a partially built container through this adapter — so such
    /// sources are ruled out up front.
    pub fn from_vec(source: Vec<T>) -> (r: Self)
        requires
            source@.len() <= N,
        ensures
            r@ == source@,
    {
        let ghost all = source@;
        let mut rest = source;
        let mut r = Self::new();
        while rest.len() > 0
            invariant
                all.len() <= N,
                r@.len() + rest@.len() == all.len(),
                all == r@ + rest@,
            decreases rest@.len(),
        {
            let x = rest.remove(0);
            let _ = r.push(x);
            proof {
                assert(all =~= r@ + rest@);
            }
        }
        proof {
            assert(r@ =~= all);
        }
        r
    }

    /// The read half of the live view: references to the live elements, in
    /// the order they were pushed, least-recently-pushed first — exactly
    /// `length()` of them, never a vacant slot.
    pub fn live_prefix(&self) -> (r: Vec<&T>)
        ensures
            r@.len() == self@.len(),
            forall|i: int| 0 <= i < r@.len() ==> *r@[i] == self@[i],
    {
        let n = self.length();
        let mut r: Vec<&T> = Vec::new();
        let mut i: usize = 0;
        while i < n
            invariant
                i <= n,
                n == self@.len(),
                r@.len() == i,
                forall|j: int| 0 <= j < i ==> *r@[j] == self@[j],
            decreases n - i,
        {
            r.push(self.index(i));
            i = i + 1;
        }
        r
    }
}

/// Law of the push/pop round trip, stated over the abstract sequence that the
/// container's contracts use: after a push of `v` onto contents `s`, the
/// length has grown by one, an immediate pop returns `v`, and the contents
/// are `s` again.
pub proof fn lemma_push_pop_round_trip<T>(s: Seq<T>, v: T)
    ensures
        s.push(v).len() == s.len() + 1,
        s.push(v).last() == v,
        s.push(v).drop_last() == s,
{
    assert(s.push(v).drop_last() =~= s);
}

} // verus!
