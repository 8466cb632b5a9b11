//! Facts about sequences of operations on a cell. Each law takes the cells
//! that the calls leave behind, related as the operations' own contracts
//! relate them, and states what a caller may conclude.
use vstd::prelude::*;
use crate::cell::Cell;

verus! {

/// A cell built from `v` and read straight away yields `v`.
pub proof fn lemma_get_after_new<T: Copy>(v: T, built: Cell<T>, read: T)
    requires
        built@ == v,
        read == built@,
    ensures
        read == v,
{
}

/// Last write wins. `states[0]` is a cell built from `init`, and
/// `states[i + 1]` is `states[i]` overwritten with `writes[i]`. Then the final
/// cell holds the last value written, and every read taken from it (any number
/// of them) yields that value, whatever was held or written before.
pub proof fn lemma_last_write_wins<T: Copy>(
    init: T,
    writes: Seq<T>,
    states: Seq<Cell<T>>,
    reads: Seq<T>,
)
    requires
        writes.len() > 0,
        states.len() == writes.len() + 1,
        states[0]@ == init,
        forall|i: int| 0 <= i < writes.len() ==> #[trigger] states[i + 1]@ == writes[i],
        forall|j: int| 0 <= j < reads.len() ==> #[trigger] reads[j] == states.last()@,
    ensures
        states.last()@ == writes.last(),
        forall|j: int| 0 <= j < reads.len() ==> #[trigger] reads[j] == writes.last(),
{
    let n = writes.len() as int;
    assert(states[n - 1 + 1]@ == writes[n - 1]);
}

/// Replacing hands back the value held before: a cell built from `v1` and
/// then replaced with `v2` returns `v1`, and a read afterwards yields `v2`.
/// No bound on `T`: the old value is moved out, not copied.
pub proof fn lemma_replace_returns_prior<T>(
    v1: T,
    v2: T,
    built: Cell<T>,
    replaced: Cell<T>,
    returned: T,
    read: T,
)
    requires
        built@ == v1,
        returned == built@,
        replaced@ == v2,
        read == replaced@,
    ensures
        returned == v1,
        read == v2,
{
}

/// Swapping exchanges contents: with `a0` built from `a` and `b0` built from
/// `b`, after `a0.swap(b0)` the first cell holds `b` and the second holds `a`.
/// No bound on `T`: the swap moves values and copies none.
pub proof fn lemma_swap_exchanges<T>(a: T, b: T, a0: Cell<T>, b0: Cell<T>, a1: Cell<T>, b1: Cell<T>)
    requires
        a0@ == a,
        b0@ == b,
        a1@ == b0@,
        b1@ == a0@,
    ensures
        a1@ == b,
        b1@ == a,
{
}

} // verus!
