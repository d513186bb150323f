//! The container capability contract: the primitive operations every
//! growable, randomly indexable sequence container must supply, and
//! the derived operations every implementer gets for free.

use vstd::prelude::*;

use crate::bounds::OutOfRange;

verus! {

/// Well-formedness of a container: its capacity covers every live
/// element. The constructors of the capability contract establish it
/// and every mutating operation preserves it, so it holds after every
/// call on a container that was obtained from the contract itself.
pub open spec fn wf<V: Vector>(v: V) -> bool {
    v.elems().len() <= v.cap()
}

/// The capability contract for a growable, randomly indexable
/// sequence container.
///
/// A container holds an ordered sequence of elements of the storage
/// type `Storage`, addressed by zero-based indices in `[0, len)`, and
/// accepts new elements of the argument type `Arg`; the two types may
/// differ when the underlying storage represents elements otherwise
/// than callers supply them, and `stored` is the conversion an
/// implementer applies on the way in.
///
/// The abstract state of a container is the sequence `elems()` of its
/// live elements and its capacity `cap()`, the number of slots it has
/// set aside. Every conforming container keeps `wf` — capacity at
/// least length — from its construction on: the constructors below
/// establish it and every mutating operation preserves it.
///
/// Checked operations (`get`, `set`, `insert`, `remove`, `swap`)
/// validate their indices and report an [`OutOfRange`] failure, never
/// clamping and never aborting; the unchecked pair (`get_unchecked`,
/// `set_unchecked`) instead demands a proof that the index is in
/// range and has no error channel at all.
pub trait Vector: Sized {
    /// The type an element has when it is read out of the container.
    type Storage;

    /// The type an element has when a caller hands it in.
    type Arg;

    /// The ordered sequence of live elements, the container's
    /// abstract contents.
    spec fn elems(&self) -> Seq<Self::Storage>;

    /// The number of slots the container has set aside; never less
    /// than the length of `elems()` for a well-formed container.
    spec fn cap(&self) -> nat;

    /// The conversion from an argument-typed element to the
    /// storage-typed element the container keeps for it; identity
    /// when the two types coincide.
    spec fn stored(a: Self::Arg) -> Self::Storage;

    /// Produces an empty container.
    fn new() -> (r: Self)
        ensures
            r.elems() == Seq::<Self::Storage>::empty(),
            r.elems().len() <= r.cap(),
    ;

    /// The number of live elements.
    fn len(&self) -> (r: usize)
        ensures
            r == self.elems().len(),
    ;

    /// True exactly when the container holds no element.
    fn is_empty(&self) -> (r: bool)
        ensures
            r <==> self.elems().len() == 0,
    ;

    /// The number of slots the container has set aside.
    fn capacity(&self) -> (r: usize)
        ensures
            r == self.cap(),
    ;

    /// Ensures room for `additional` more elements: afterwards the
    /// capacity covers the current length plus `additional`. Never
    /// shrinks the capacity and never touches the elements.
    fn reserve(&mut self, additional: usize)
        requires
            old(self).elems().len() + additional <= usize::MAX,
        ensures
            final(self).elems() == old(self).elems(),
            final(self).cap() >= old(self).elems().len() + additional,
            final(self).cap() >= old(self).cap(),
    ;

    /// Gives extra capacity back, bringing the capacity toward the
    /// length without ever dropping below it; never touches the
    /// elements and never fails.
    fn shrink_to_fit(&mut self)
        ensures
            final(self).elems() == old(self).elems(),
            final(self).elems().len() <= final(self).cap(),
            old(self).elems().len() <= old(self).cap() ==> final(self).cap() <= old(self).cap(),
    ;

    /// Removes every element; what happens to the capacity is the
    /// implementer's choice.
    fn clear(&mut self)
        ensures
            final(self).elems() == Seq::<Self::Storage>::empty(),
            final(self).elems().len() <= final(self).cap(),
    ;

    /// Appends one element at the end: the length grows by exactly
    /// one and the new last element is the stored form of `value`.
    fn push(&mut self, value: Self::Arg)
        requires
            old(self).elems().len() < usize::MAX,
        ensures
            final(self).elems() == old(self).elems().push(Self::stored(value)),
            final(self).elems().len() <= final(self).cap(),
    ;

    /// Inserts an element at `index`, shifting the elements at
    /// `[index, len)` one position later; `index == len` appends.
    /// Fails with out-of-range exactly when `index > len`, leaving
    /// the container untouched.
    fn insert(&mut self, index: usize, value: Self::Arg) -> (r: Result<(), OutOfRange>)
        requires
            index <= old(self).elems().len() ==> old(self).elems().len() < usize::MAX,
        ensures
            r is Ok <==> index <= old(self).elems().len(),
            r is Ok ==> final(self).elems() == old(self).elems().insert(
                index as int,
                Self::stored(value),
            ),
            r is Ok ==> final(self).elems().len() <= final(self).cap(),
            r is Err ==> *final(self) == *old(self),
            r is Err ==> r->Err_0 == (OutOfRange {
                index,
                bound: (old(self).elems().len() + 1) as usize,
            }),
    ;

    /// Removes the element at `index`, shifting the elements at
    /// `(index, len)` one position earlier. Fails with out-of-range
    /// exactly when `index >= len`, leaving the container untouched.
    fn remove(&mut self, index: usize) -> (r: Result<(), OutOfRange>)
        ensures
            r is Ok <==> index < old(self).elems().len(),
            r is Ok ==> final(self).elems() == old(self).elems().remove(index as int),
            r is Ok && old(self).elems().len() <= old(self).cap() ==> final(self).elems().len() <= final(self).cap(),
            r is Err ==> *final(self) == *old(self),
            r is Err ==> r->Err_0 == (OutOfRange {
                index,
                bound: old(self).elems().len() as usize,
            }),
    ;

    /// Exchanges the elements at `index1` and `index2` (a successful
    /// no-op when the two are equal). Fails with out-of-range exactly
    /// when either index is at or past the length, reporting the
    /// first offending index and leaving the container untouched.
    fn swap(&mut self, index1: usize, index2: usize) -> (r: Result<(), OutOfRange>)
        ensures
            r is Ok <==> (index1 < old(self).elems().len() && index2 < old(self).elems().len()),
            r is Ok ==> final(self).elems() == old(self).elems().update(
                index1 as int,
                old(self).elems()[index2 as int],
            ).update(index2 as int, old(self).elems()[index1 as int]),
            r is Ok && old(self).elems().len() <= old(self).cap() ==> final(self).elems().len() <= final(self).cap(),
            r is Err ==> *final(self) == *old(self),
            r is Err ==> r->Err_0 == (OutOfRange {
                index: if index1 < old(self).elems().len() {
                    index2
                } else {
                    index1
                },
                bound: old(self).elems().len() as usize,
            }),
    ;

    /// Reads the element at `index` by value. Fails with out-of-range
    /// exactly when `index >= len`.
    fn get(&self, index: usize) -> (r: Result<Self::Storage, OutOfRange>)
        ensures
            r is Ok <==> index < self.elems().len(),
            r is Ok ==> r->Ok_0 == self.elems()[index as int],
            r is Err ==> r->Err_0 == (OutOfRange {
                index,
                bound: self.elems().len() as usize,
            }),
    ;

    /// Reads the element at `index` without a runtime check: the
    /// caller proves the index in range, and no error channel exists.
    fn get_unchecked(&self, index: usize) -> (r: Self::Storage)
        requires
            index < self.elems().len(),
        ensures
            r == self.elems()[index as int],
    ;

    /// Overwrites the element at `index` with the stored form of
    /// `value`; the length never changes. Fails with out-of-range
    /// exactly when `index >= len`, leaving the container untouched.
    fn set(&mut self, index: usize, value: Self::Arg) -> (r: Result<(), OutOfRange>)
        ensures
            r is Ok <==> index < old(self).elems().len(),
            r is Ok ==> final(self).elems() == old(self).elems().update(
                index as int,
                Self::stored(value),
            ),
            r is Ok && old(self).elems().len() <= old(self).cap() ==> final(self).elems().len() <= final(self).cap(),
            r is Err ==> *final(self) == *old(self),
            r is Err ==> r->Err_0 == (OutOfRange {
                index,
                bound: old(self).elems().len() as usize,
            }),
    ;

    /// Overwrites the element at `index` without a runtime check: the
    /// caller proves the index in range, and no error channel exists.
    fn set_unchecked(&mut self, index: usize, value: Self::Arg)
        requires
            index < old(self).elems().len(),
        ensures
            final(self).elems() == old(self).elems().update(index as int, Self::stored(value)),
            old(self).elems().len() <= old(self).cap() ==> final(self).elems().len() <= final(self).cap(),
    ;

    /// Produces an empty container whose capacity already covers `n`
    /// elements: `new` followed by `reserve`.
    fn with_capacity(n: usize) -> (r: Self)
        ensures
            r.elems() == Seq::<Self::Storage>::empty(),
            r.cap() >= n,
            r.elems().len() <= r.cap(),
    {
        let mut out = Self::new();
        out.reserve(n);
        out
    }

    /// Builds a container from a finite sequence of argument-typed
    /// values: capacity is reserved for the whole source up front,
    /// then each value is pushed in order, so the container's
    /// contents are the stored forms of the source's elements in the
    /// source's own order.
    fn from_iter(source: Vec<Self::Arg>) -> (r: Self)
        ensures
            r.elems() == source@.map_values(|a: Self::Arg| Self::stored(a)),
            r.elems().len() <= r.cap(),
    {
        let ghost all = source@;
        let mut src = source;
        let mut out = Self::with_capacity(src.len());
        proof {
            assert(out.elems() =~= all.map_values(
                |a: Self::Arg| Self::stored(a),
            ).take(0));
            assert(src@ =~= all.skip(0));
        }
        while src.len() > 0
            invariant
                out.elems().len() <= out.cap(),
                all.len() <= usize::MAX,
                out.elems().len() + src@.len() == all.len(),
                out.elems() == all.map_values(|a: Self::Arg| Self::stored(a)).take(
                    out.elems().len() as int,
                ),
                src@ == all.skip(out.elems().len() as int),
            decreases src@.len(),
        {
            let ghost k = out.elems().len() as int;
            let x = src.remove(0);
            proof {
                assert(x == all[k]);
                assert(src@ =~= all.skip(k + 1));
            }
            out.push(x);
            proof {
                assert(out.elems() =~= all.map_values(
                    |a: Self::Arg| Self::stored(a),
                ).take(k + 1));
            }
        }
        proof {
            assert(out.elems() =~= all.map_values(|a: Self::Arg| Self::stored(a)));
        }
        out
    }

    /// Materializes the container's elements, in order, into a newly
    /// allocated vector; reads go through the unchecked accessor,
    /// which is safe here because every index read is below the
    /// length.
    fn to_vec(&self) -> (r: Vec<Self::Storage>)
        ensures
            r@ == self.elems(),
    {
        let n: usize = self.len();
        let mut out: Vec<Self::Storage> = Vec::new();
        let mut i: usize = 0;
        while i < n
            invariant
                n == self.elems().len(),
                i <= n,
                out@ == self.elems().take(i as int),
            decreases n - i,
        {
            out.push(self.get_unchecked(i));
            proof {
                assert(out@ =~= self.elems().take(i + 1));
            }
            i += 1;
        }
        proof {
            assert(self.elems().take(n as int) =~= self.elems());
        }
        out
    }
}

} // verus!
