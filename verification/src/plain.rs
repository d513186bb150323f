//! A reference container: contiguous storage backed by std's `Vec`,
//! with the identity conversion between argument and storage types.
//! It gives the capability contract, its derived operations and the
//! iterator adapters a concrete, fully verified implementation.

use vstd::prelude::*;

use crate::bounds::index_check;
use crate::bounds::OutOfRange;
use crate::vector::Vector;

verus! {

/// Relies on `Vec::shrink_to_fit`: it may give allocation back to the
/// allocator but never touches the elements.
#[verifier::external_body]
fn vec_shrink_to_fit<T>(v: &mut Vec<T>)
    ensures
        final(v)@ == old(v)@,
{
    v.shrink_to_fit()
}

/// A growable container of copyable elements in contiguous storage.
///
/// Elements live in a `Vec`; the argument and storage types coincide,
/// so the stored form of a value is the value itself. The container
/// keeps its own account of the slots it has promised (`slots`),
/// which never falls below the length, while the backing `Vec` is
/// free to allocate more.
pub struct PlainVec<T> {
    data: Vec<T>,
    slots: usize,
}

impl<T: Copy> Vector for PlainVec<T> {
    type Storage = T;

    type Arg = T;

    closed spec fn elems(&self) -> Seq<T> {
        self.data@
    }

    closed spec fn cap(&self) -> nat {
        self.slots as nat
    }

    open spec fn stored(a: T) -> T {
        a
    }

    fn new() -> (r: Self) {
        PlainVec { data: Vec::new(), slots: 0 }
    }

    fn len(&self) -> (r: usize) {
        self.data.len()
    }

    fn is_empty(&self) -> (r: bool) {
        self.data.len() == 0
    }

    fn capacity(&self) -> (r: usize) {
        self.slots
    }

    fn reserve(&mut self, additional: usize) {
        let needed: usize = self.data.len() + additional;
        if self.slots < needed {
            self.slots = needed;
        }
        self.data.reserve(additional);
    }

    fn shrink_to_fit(&mut self) {
        self.slots = self.data.len();
        vec_shrink_to_fit(&mut self.data);
    }

    fn clear(&mut self) {
        self.data.clear();
    }

    fn push(&mut self, value: T) {
        self.data.push(value);
        if self.slots < self.data.len() {
            self.slots = self.data.len();
        }
    }

    fn insert(&mut self, index: usize, value: T) -> (r: Result<(), OutOfRange>) {
        match index_check(index, self.data.len() + 1) {
            Err(e) => Err(e),
            Ok(()) => {
                self.data.insert(index, value);
                if self.slots < self.data.len() {
                    self.slots = self.data.len();
                }
                Ok(())
            },
        }
    }

    fn remove(&mut self, index: usize) -> (r: Result<(), OutOfRange>) {
        match index_check(index, self.data.len()) {
            Err(e) => Err(e),
            Ok(()) => {
                let _ = self.data.remove(index);
                Ok(())
            },
        }
    }

    fn swap(&mut self, index1: usize, index2: usize) -> (r: Result<(), OutOfRange>) {
        let n: usize = self.data.len();
        match index_check(index1, n) {
            Err(e) => Err(e),
            Ok(()) => match index_check(index2, n) {
                Err(e) => Err(e),
                Ok(()) => {
                    let a = self.data[index1];
                    let b = self.data[index2];
                    self.data[index1] = b;
                    self.data[index2] = a;
                    Ok(())
                },
            },
        }
    }

    fn get(&self, index: usize) -> (r: Result<T, OutOfRange>) {
        match index_check(index, self.data.len()) {
            Err(e) => Err(e),
            Ok(()) => Ok(self.data[index]),
        }
    }

    fn get_unchecked(&self, index: usize) -> (r: T) {
        self.data[index]
    }

    fn set(&mut self, index: usize, value: T) -> (r: Result<(), OutOfRange>) {
        match index_check(index, self.data.len()) {
            Err(e) => Err(e),
            Ok(()) => {
                self.data[index] = value;
                Ok(())
            },
        }
    }

    fn set_unchecked(&mut self, index: usize, value: T) {
        self.data[index] = value;
    }
}

} // verus!
