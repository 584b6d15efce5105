//! Growth discipline for the append-only buffers.
//!
//! The buffers themselves are owned growable vectors, which absorb the
//! allocation-failure mode (a failed allocation aborts the process); these
//! helpers state the doubling policy and the element-preservation contract
//! that every buffer of the machine follows.

use vstd::prelude::*;

verus! {

/// The doubling policy: a buffer below the minimum capacity jumps to it,
/// any other buffer doubles.
pub fn grow_capacity(capacity: isize) -> (new_capacity: isize)
    requires
        capacity <= isize::MAX / 2,
    ensures
        new_capacity == (if capacity < 8 { 8int } else { capacity * 2 }),
{
    if capacity < 8 {
        8
    } else {
        capacity * 2
    }
}

/// Reallocation, grown form: room for `new_count` elements, every element
/// already appended preserved in order.
pub fn grow_array<T>(array: Vec<T>, new_count: usize) -> (grown: Vec<T>)
    ensures
        grown@ == array@,
{
    let mut grown = array;
    if new_count > grown.len() {
        grown.reserve(new_count - grown.len());
    }
    grown
}

/// Reallocation, releasing form: the storage is handed back and nothing
/// remains in the array.
pub fn free_array<T>(array: Vec<T>) -> (freed: Vec<T>)
    ensures
        freed@ == Seq::<T>::empty(),
{
    let mut freed = array;
    freed.clear();
    assert(freed@ =~= Seq::<T>::empty());
    freed
}

} // verus!
