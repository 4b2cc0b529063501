//! Ownership of shared and engine-held resources: arrays handed out by the
//! engine, guards on what is borrowed from them, and the engine's reference
//! counts.

use vstd::prelude::*;
use std::sync::Arc;

verus! {

/// A second owner of the value behind `a`. This is `Arc::clone` of the
/// standard library: it hands back a pointer to the same allocation, so the
/// value seen through the result is the value seen through `a`.
#[verifier::external_body]
pub(crate) fn share<T>(a: &Arc<T>) -> (r: Arc<T>)
    ensures
        r == *a,
{
    a.clone()
}

/// Access to a value that belongs to an array. The guard cannot outlive the
/// array that it was taken from.
pub struct Guard<'a, T> {
    contents: &'a T,
}

impl<'a, T> View for Guard<'a, T> {
    type V = T;

    closed spec fn view(&self) -> T {
        *self.contents
    }
}

impl<'a, T> Guard<'a, T> {
    pub(crate) fn new(contents: &'a T) -> (r: Self)
        ensures
            r@ == *contents,
    {
        Self { contents }
    }

    /// The guarded value itself.
    pub fn as_ref(&self) -> (r: &T)
        ensures
            *r == self@,
    {
        self.contents
    }
}

impl<'a, T: Clone> Guard<'a, T> {
    /// An owned copy of the guarded value, free of the array.
    pub fn clone(&self) -> (r: T)
        ensures
            cloned(self@, r),
    {
        self.contents.clone()
    }
}

/// A buffer of elements with its count, owned as a whole: its elements are
/// reached by index or in order, and the buffer goes when the array goes.
pub struct Array<T> {
    contents: Vec<T>,
}

impl<T> View for Array<T> {
    type V = Seq<T>;

    closed spec fn view(&self) -> Seq<T> {
        self.contents@
    }
}

impl<T> Array<T> {
    pub fn new(contents: Vec<T>) -> (r: Self)
        ensures
            r@ == contents@,
    {
        Self { contents }
    }

    #[inline]
    pub fn len(&self) -> (r: usize)
        ensures
            r == self@.len(),
    {
        self.contents.len()
    }

    #[inline]
    pub fn is_empty(&self) -> (r: bool)
        ensures
            r == (self@.len() == 0),
    {
        self.contents.len() == 0
    }

    /// The element at `index`, which must be inside the array.
    #[inline]
    pub fn get(&self, index: usize) -> (r: Guard<'_, T>)
        requires
            index < self@.len(),
        ensures
            r@ == self@[index as int],
    {
        Guard::new(&self.contents[index])
    }

    /// The elements from first to last; taken from the back, from last to
    /// first.
    pub fn iter(&self) -> (r: ArrayIter<'_, T>)
        ensures
            r.remaining() == self@,
    {
        ArrayIter::over(&self.contents)
    }

    /// The same elements, seen without owning them.
    pub fn guard(&self) -> (r: ArrayGuard<'_, T>)
        ensures
            r@ == self@,
    {
        ArrayGuard { contents: &self.contents }
    }
}

/// A buffer of elements that someone else owns.
pub struct ArrayGuard<'a, T> {
    contents: &'a Vec<T>,
}

impl<'a, T> View for ArrayGuard<'a, T> {
    type V = Seq<T>;

    closed spec fn view(&self) -> Seq<T> {
        self.contents@
    }
}

impl<'a, T> ArrayGuard<'a, T> {
    pub fn new(contents: &'a Vec<T>) -> (r: Self)
        ensures
            r@ == contents@,
    {
        Self { contents }
    }

    #[inline]
    pub fn len(&self) -> (r: usize)
        ensures
            r == self@.len(),
    {
        self.contents.len()
    }

    #[inline]
    pub fn is_empty(&self) -> (r: bool)
        ensures
            r == (self@.len() == 0),
    {
        self.contents.len() == 0
    }

    /// The element at `index`, which must be inside the array.
    #[inline]
    pub fn get(&self, index: usize) -> (r: Guard<'a, T>)
        requires
            index < self@.len(),
        ensures
            r@ == self@[index as int],
    {
        Guard::new(&self.contents[index])
    }

    pub fn iter(&self) -> (r: ArrayIter<'a, T>)
        ensures
            r.remaining() == self@,
    {
        ArrayIter::over(self.contents)
    }
}

/// A walk over an array from both ends.
pub struct ArrayIter<'a, T> {
    contents: &'a Vec<T>,
    front: usize,
    back: usize,
}

impl<'a, T> ArrayIter<'a, T> {
    #[verifier::type_invariant]
    spec fn in_bounds(&self) -> bool {
        self.front <= self.back <= self.contents@.len()
    }

    /// What is still to come, in the array's order.
    pub closed spec fn remaining(&self) -> Seq<T> {
        self.contents@.subrange(self.front as int, self.back as int)
    }

    fn over(contents: &'a Vec<T>) -> (r: Self)
        ensures
            r.remaining() == contents@,
    {
        let r = Self { contents, front: 0, back: contents.len() };
        proof {
            assert(r.remaining() =~= contents@);
        }
        r
    }

    /// How many elements are still to come.
    #[inline]
    pub fn len(&self) -> (r: usize)
        ensures
            r == self.remaining().len(),
    {
        proof {
            use_type_invariant(self);
        }
        self.back - self.front
    }

    /// The walk cut in two: the first `index` elements that are still to
    /// come, and the rest.
    pub fn split_at(self, index: usize) -> (r: (Self, Self))
        requires
            index <= self.remaining().len(),
        ensures
            r.0.remaining() == self.remaining().take(index as int),
            r.1.remaining() == self.remaining().skip(index as int),
    {
        proof {
            use_type_invariant(&self);
        }
        let middle = self.front + index;
        let left = Self { contents: self.contents, front: self.front, back: middle };
        let right = Self { contents: self.contents, front: middle, back: self.back };
        proof {
            assert(left.remaining() =~= self.remaining().take(index as int));
            assert(right.remaining() =~= self.remaining().skip(index as int));
        }
        (left, right)
    }

    /// The first element that is still to come, which is then passed.
    #[inline]
    pub fn next(&mut self) -> (r: Option<Guard<'a, T>>)
        ensures
            old(self).remaining().len() == 0 ==> r is None && final(self).remaining() == old(
                self,
            ).remaining(),
            old(self).remaining().len() > 0 ==> r is Some && r.unwrap()@ == old(
                self,
            ).remaining().first() && final(self).remaining() == old(self).remaining().drop_first(),
    {
        proof {
            use_type_invariant(&*self);
        }
        if self.front < self.back {
            let contents: &'a Vec<T> = self.contents;
            let g = Guard::new(&contents[self.front]);
            self.front = self.front + 1;
            proof {
                assert(self.remaining() =~= old(self).remaining().drop_first());
            }
            Some(g)
        } else {
            None
        }
    }

    /// The last element that is still to come, which is then passed.
    #[inline]
    pub fn next_back(&mut self) -> (r: Option<Guard<'a, T>>)
        ensures
            old(self).remaining().len() == 0 ==> r is None && final(self).remaining() == old(
                self,
            ).remaining(),
            old(self).remaining().len() > 0 ==> r is Some && r.unwrap()@ == old(
                self,
            ).remaining().last() && final(self).remaining() == old(self).remaining().drop_last(),
    {
        proof {
            use_type_invariant(&*self);
        }
        if self.front < self.back {
            let contents: &'a Vec<T> = self.contents;
            self.back = self.back - 1;
            let g = Guard::new(&contents[self.back]);
            proof {
                assert(self.remaining() =~= old(self).remaining().drop_last());
            }
            Some(g)
        } else {
            None
        }
    }
}

/// What a walk from the front yields: the first element, then the walk over
/// the rest.
pub open spec fn from_the_front<T>(s: Seq<T>) -> Seq<T>
    decreases s.len(),
{
    if s.len() == 0 {
        Seq::empty()
    } else {
        seq![s.first()] + from_the_front(s.drop_first())
    }
}

/// What a walk from the back yields: the last element, then the walk over the
/// rest.
pub open spec fn from_the_back<T>(s: Seq<T>) -> Seq<T>
    decreases s.len(),
{
    if s.len() == 0 {
        Seq::empty()
    } else {
        seq![s.last()] + from_the_back(s.drop_last())
    }
}

/// A walk over `n` elements yields `n` items: from the front, the elements in
/// their order; from the back, the same elements in reverse order.
pub proof fn lemma_walk_order<T>(s: Seq<T>)
    ensures
        from_the_front(s) == s,
        from_the_back(s) == s.reverse(),
        from_the_front(s).len() == s.len(),
        from_the_back(s).len() == s.len(),
    decreases s.len(),
{
    if s.len() > 0 {
        lemma_walk_order(s.drop_first());
        lemma_walk_order(s.drop_last());
        assert(seq![s.first()] + s.drop_first() =~= s);
        assert(seq![s.last()] + s.drop_last().reverse() =~= s.reverse());
    } else {
        assert(s =~= Seq::<T>::empty());
        assert(s.reverse() =~= Seq::<T>::empty());
    }
}


/// One owner's claim on a resource of a `ResourceTable`. A handle is not
/// copied: a second owner gets its own from `incref`, and each handle is given
/// back once, to `decref`.
#[derive(Debug)]
pub struct Handle {
    slot: usize,
}

impl Handle {
    /// Which resource the handle is a claim on.
    pub closed spec fn slot(&self) -> int {
        self.slot as int
    }
}

/// The reference counts that an engine keeps of the resources it hands out:
/// one count of owners per resource, in the order in which they were
/// allocated. A resource whose count is zero has been reclaimed.
#[derive(Debug)]
pub struct ResourceTable {
    counts: Vec<u64>,
    limit: usize,
}

impl View for ResourceTable {
    type V = Seq<u64>;

    closed spec fn view(&self) -> Seq<u64> {
        self.counts@
    }
}

/// Whether resource `slot` has an owner.
pub open spec fn live(counts: Seq<u64>, slot: int) -> bool {
    0 <= slot < counts.len() && counts[slot] > 0
}

/// The counts after resource `slot` got one more owner.
pub open spec fn after_incref(counts: Seq<u64>, slot: int) -> Seq<u64>
    recommends
        live(counts, slot),
        counts[slot] < u64::MAX,
{
    counts.update(slot, (counts[slot] + 1) as u64)
}

/// The counts after one owner of resource `slot` let go of it.
pub open spec fn after_decref(counts: Seq<u64>, slot: int) -> Seq<u64>
    recommends
        live(counts, slot),
{
    counts.update(slot, (counts[slot] - 1) as u64)
}

impl ResourceTable {
    /// A table with no resources that will hold at most `limit`.
    pub fn new(limit: usize) -> (r: Self)
        ensures
            r@ == Seq::<u64>::empty(),
            r.limit() == limit,
    {
        Self { counts: Vec::new(), limit }
    }

    /// How many resources the table will hold.
    pub closed spec fn limit(&self) -> usize {
        self.limit
    }

    /// A new resource with one owner. Where the table is full there is none
    /// to be had, and nothing changes.
    pub fn allocate(&mut self) -> (r: Option<Handle>)
        ensures
            final(self).limit() == old(self).limit(),
            old(self)@.len() < old(self).limit() ==> r is Some && r.unwrap().slot() == old(self)@.len()
                && final(self)@ == old(self)@.push(1),
            old(self)@.len() >= old(self).limit() ==> r is None && final(self)@ == old(self)@,
    {
        if self.counts.len() < self.limit {
            let slot = self.counts.len();
            self.counts.push(1);
            Some(Handle { slot })
        } else {
            None
        }
    }

    /// A handle for one more owner of the resource of `handle`.
    pub fn incref(&mut self, handle: &Handle) -> (r: Handle)
        requires
            live(old(self)@, handle.slot()),
            old(self)@[handle.slot()] < u64::MAX,
        ensures
            final(self).limit() == old(self).limit(),
            final(self)@ == after_incref(old(self)@, handle.slot()),
            r.slot() == handle.slot(),
    {
        let count = self.counts[handle.slot];
        self.counts[handle.slot] = count + 1;
        Handle { slot: handle.slot }
    }

    /// Give a handle back. The resource is reclaimed when its last owner has
    /// done so.
    pub fn decref(&mut self, handle: Handle)
        requires
            live(old(self)@, handle.slot()),
        ensures
            final(self).limit() == old(self).limit(),
            final(self)@ == after_decref(old(self)@, handle.slot()),
    {
        let count = self.counts[handle.slot];
        self.counts[handle.slot] = count - 1;
    }

    /// How many owners the resource of `handle` has.
    pub fn ref_count(&self, handle: &Handle) -> (r: u64)
        requires
            0 <= handle.slot() < self@.len(),
        ensures
            r == self@[handle.slot()],
    {
        self.counts[handle.slot]
    }

    /// Whether the resource in `slot` has an owner. A slot that was never
    /// allocated has none.
    pub fn is_live(&self, slot: usize) -> (r: bool)
        ensures
            r == live(self@, slot as int),
    {
        slot < self.counts.len() && self.counts[slot] > 0
    }
}

/// A second handle and then the return of both: the count goes up by one and
/// then down by two. The resource is still held after the first return, and
/// it is reclaimed by the second exactly when the two handles were its only
/// owners. No other resource is touched.
pub proof fn lemma_clone_then_drop_both(counts: Seq<u64>, slot: int)
    requires
        live(counts, slot),
        counts[slot] < u64::MAX,
    ensures
        ({
            let cloned = after_incref(counts, slot);
            let once = after_decref(cloned, slot);
            let twice = after_decref(once, slot);
            &&& cloned[slot] == counts[slot] + 1
            &&& live(once, slot)
            &&& once[slot] == cloned[slot] - 1
            &&& twice[slot] == cloned[slot] - 2
            &&& (live(twice, slot) <==> counts[slot] > 1)
            &&& twice.len() == counts.len()
            &&& forall|other: int|
                0 <= other < counts.len() && other != slot ==> twice[other] == counts[other]
        }),
{
}

} // verus!
