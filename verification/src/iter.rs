//! The two iterator adapters over a container: an owning form that
//! consumes the container and a borrowed form that only references
//! it. Both yield the elements front to back, lazily, exactly once.

use vstd::prelude::*;

use crate::vector::Vector;

verus! {

/// An iterator that owns the container it traverses: the container
/// moves in at construction and the elements come out front to back.
pub struct VectorIterator<T: Vector> {
    vec: T,
    i: usize,
}

impl<T: Vector> VectorIterator<T> {
    /// The elements of the wrapped container.
    pub closed spec fn elements(&self) -> Seq<T::Storage> {
        self.vec.elems()
    }

    /// The cursor: how many elements have been yielded so far.
    pub closed spec fn cursor(&self) -> nat {
        self.i as nat
    }

    /// The elements not yet yielded: the suffix of the elements from
    /// the cursor on. A fresh iterator has all of them, each yield
    /// takes the front one, and the iterator is exhausted exactly
    /// when none remain.
    pub open spec fn remaining(&self) -> Seq<T::Storage> {
        if self.cursor() <= self.elements().len() {
            self.elements().skip(self.cursor() as int)
        } else {
            Seq::empty()
        }
    }

    /// Wraps a container, taking ownership of it; the cursor starts
    /// at the front.
    pub fn new(vec: T) -> (r: Self)
        ensures
            r.elements() == vec.elems(),
            r.cursor() == 0,
            r.remaining() == vec.elems(),
    {
        let r = VectorIterator { vec, i: 0 };
        proof {
            assert(r.remaining() =~= r.elements());
        }
        r
    }

    /// Yields the element at the cursor and advances, or reports
    /// exhaustion — decided by the checked read, so once the cursor
    /// has reached the length every later call keeps reporting
    /// exhaustion.
    pub fn next(&mut self) -> (r: Option<T::Storage>)
        ensures
            final(self).elements() == old(self).elements(),
            old(self).cursor() < old(self).elements().len() ==> r == Some(
                old(self).elements()[old(self).cursor() as int],
            ) && final(self).cursor() == old(self).cursor() + 1,
            old(self).cursor() >= old(self).elements().len() ==> r is None
                && final(self).cursor() == old(self).cursor(),
            old(self).remaining().len() > 0 ==> r == Some(old(self).remaining()[0])
                && final(self).remaining() == old(self).remaining().drop_first(),
            old(self).remaining().len() == 0 ==> r is None
                && final(self).remaining() == old(self).remaining(),
    {
        // the length bounds the cursor, so the increment cannot
        // overflow
        let _n: usize = self.vec.len();
        match self.vec.get(self.i) {
            Ok(x) => {
                self.i = self.i + 1;
                proof {
                    assert(self.remaining() =~= old(self).remaining().drop_first());
                }
                Some(x)
            },
            Err(_) => None,
        }
    }

    /// The size estimate: the container's current length as the lower
    /// bound, with no declared upper bound.
    pub fn size_hint(&self) -> (r: (usize, Option<usize>))
        ensures
            r.0 == self.elements().len(),
            r.1 is None,
    {
        (self.vec.len(), None)
    }

    /// The exact size when the iterator is taken as an exact-size
    /// sequence: the container's length at the time of the query.
    pub fn len(&self) -> (r: usize)
        ensures
            r == self.elements().len(),
    {
        self.vec.len()
    }
}

/// An iterator that borrows the container it traverses: the wrapped
/// reference must not outlive the container, and the elements come
/// out front to back without the container changing hands.
pub struct VectorRefIterator<'v, T: Vector> {
    vec: &'v T,
    i: usize,
}

impl<'v, T: Vector> VectorRefIterator<'v, T> {
    /// The elements of the referenced container.
    pub closed spec fn elements(&self) -> Seq<T::Storage> {
        self.vec.elems()
    }

    /// The cursor: how many elements have been yielded so far.
    pub closed spec fn cursor(&self) -> nat {
        self.i as nat
    }

    /// The elements not yet yielded: the suffix of the elements from
    /// the cursor on. A fresh iterator has all of them, each yield
    /// takes the front one, and the iterator is exhausted exactly
    /// when none remain.
    pub open spec fn remaining(&self) -> Seq<T::Storage> {
        if self.cursor() <= self.elements().len() {
            self.elements().skip(self.cursor() as int)
        } else {
            Seq::empty()
        }
    }

    /// Wraps a reference to a container; the cursor starts at the
    /// front.
    pub fn new(vec: &'v T) -> (r: Self)
        ensures
            r.elements() == vec.elems(),
            r.cursor() == 0,
            r.remaining() == vec.elems(),
    {
        let r = VectorRefIterator { vec, i: 0 };
        proof {
            assert(r.remaining() =~= r.elements());
        }
        r
    }

    /// Yields the element at the cursor and advances, or reports
    /// exhaustion — decided by the checked read, so once the cursor
    /// has reached the length every later call keeps reporting
    /// exhaustion.
    pub fn next(&mut self) -> (r: Option<T::Storage>)
        ensures
            final(self).elements() == old(self).elements(),
            old(self).cursor() < old(self).elements().len() ==> r == Some(
                old(self).elements()[old(self).cursor() as int],
            ) && final(self).cursor() == old(self).cursor() + 1,
            old(self).cursor() >= old(self).elements().len() ==> r is None
                && final(self).cursor() == old(self).cursor(),
            old(self).remaining().len() > 0 ==> r == Some(old(self).remaining()[0])
                && final(self).remaining() == old(self).remaining().drop_first(),
            old(self).remaining().len() == 0 ==> r is None
                && final(self).remaining() == old(self).remaining(),
    {
        // the length bounds the cursor, so the increment cannot
        // overflow
        let _n: usize = self.vec.len();
        match self.vec.get(self.i) {
            Ok(x) => {
                self.i = self.i + 1;
                proof {
                    assert(self.remaining() =~= old(self).remaining().drop_first());
                }
                Some(x)
            },
            Err(_) => None,
        }
    }

    /// The size estimate: the container's current length as the lower
    /// bound, with no declared upper bound.
    pub fn size_hint(&self) -> (r: (usize, Option<usize>))
        ensures
            r.0 == self.elements().len(),
            r.1 is None,
    {
        (self.vec.len(), None)
    }

    /// The exact size when the iterator is taken as an exact-size
    /// sequence: the container's length at the time of the query.
    pub fn len(&self) -> (r: usize)
        ensures
            r == self.elements().len(),
    {
        self.vec.len()
    }
}

} // verus!
