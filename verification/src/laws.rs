//! General laws of the capability contract, stated and proved over
//! the same sequence model that the contract's clauses use.

use vstd::prelude::*;

use crate::vector::wf;
use crate::vector::Vector;

verus! {

/// Capacity covers length after every call: each constructor of the
/// contract ensures well-formedness outright and each operation's
/// clauses preserve it, so any container obtained from the contract
/// is well-formed, and for a well-formed container the capacity is
/// never below the number of live elements.
pub proof fn lemma_capacity_covers_length<V: Vector>(v: V)
    requires
        wf(v),
    ensures
        v.elems().len() <= v.cap(),
{
}

/// Appending grows the element sequence by exactly one: the new last
/// position holds the appended value and every earlier position is
/// untouched. Together with the contract of `push` (whose result is
/// `elems().push(..)`) and of `get`, this says that after `push(v)`
/// the length is one more than before and reading the last index
/// yields the stored form of `v`.
pub proof fn lemma_push_length<S>(s: Seq<S>, v: S)
    ensures
        s.push(v).len() == s.len() + 1,
        s.push(v)[s.len() as int] == v,
        forall|k: int| 0 <= k < s.len() ==> s.push(v)[k] == s[k],
{
}

/// Inserting a value at a valid index and then removing at that same
/// index restores the original element sequence — in particular the
/// original length, and the element that stood at the index before
/// the round trip stands there again.
pub proof fn lemma_insert_remove_inverse<S>(s: Seq<S>, i: int, v: S)
    requires
        0 <= i <= s.len(),
    ensures
        s.insert(i, v).remove(i) == s,
{
    assert(s.insert(i, v).remove(i) =~= s);
}

/// Building a container from a finite source and materializing it
/// again preserves order exactly: a container built from `source`
/// (whose elements, by the contract of `from_iter`, are the stored
/// forms of the source's values) reads back, position for position,
/// the stored form of the source element at that position, and
/// nothing else. With `out` the view that `to_vec` returns, the
/// round trip reproduces the source element for element wherever the
/// stored form is the value itself.
pub proof fn lemma_from_iter_to_vec_order<V: Vector>(
    source: Seq<V::Arg>,
    built: V,
    out: Seq<V::Storage>,
)
    requires
        built.elems() == source.map_values(|a: V::Arg| V::stored(a)),
        out == built.elems(),
    ensures
        out.len() == source.len(),
        forall|k: int| 0 <= k < source.len() ==> out[k] == V::stored(source[k]),
{
}

} // verus!
