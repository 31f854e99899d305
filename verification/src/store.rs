//! The fixed-capacity backing store of the connection-tracking table: a
//! `heapless::Vec` of entry slots, held without dynamic allocation.  The
//! verifier sees the store only through the contents function `slots` and
//! the trusted wrappers below, whose contracts state what the crate's
//! source shows of each method.

use vstd::prelude::*;
use crate::entry::NatEntry;

verus! {

/// Capacity of the connection-tracking table: the number of flows that can
/// be tracked at once.
pub const MAX_NAT_ENTRIES: usize = 16;

#[verifier::external_type_specification]
#[verifier::external_body]
#[verifier::reject_recursive_types(T)]
pub struct ExHeaplessVec<T, const N: usize>(heapless::Vec<T, N>);

/// The entries a slot store holds, in insertion order.
pub uninterp spec fn slots(v: heapless::Vec<NatEntry, MAX_NAT_ENTRIES>) -> Seq<NatEntry>;

/// Relies on heapless::Vec::new: a freshly constructed vector is empty.
#[verifier::external_body]
pub(crate) fn slots_new() -> (v: heapless::Vec<NatEntry, MAX_NAT_ENTRIES>)
    ensures
        slots(v) == Seq::<NatEntry>::empty(),
{
    heapless::Vec::new()
}

/// Relies on heapless::Vec::as_slice and the slice length: the store's
/// length, which its `len` field keeps at most the capacity N.
#[verifier::external_body]
pub(crate) fn slots_len(v: &heapless::Vec<NatEntry, MAX_NAT_ENTRIES>) -> (n: usize)
    ensures
        n == slots(*v).len(),
        n <= MAX_NAT_ENTRIES,
{
    v.as_slice().len()
}

/// Relies on heapless::Vec::as_slice and slice indexing: the entry stored
/// at index `i`.
#[verifier::external_body]
pub(crate) fn slots_get(v: &heapless::Vec<NatEntry, MAX_NAT_ENTRIES>, i: usize) -> (e: NatEntry)
    requires
        i < slots(*v).len(),
    ensures
        e == slots(*v)[i as int],
{
    v.as_slice()[i]
}

/// Relies on heapless::Vec::as_mut_slice and mutable slice indexing:
/// replaces the entry stored at index `i`, leaving the rest unchanged.
#[verifier::external_body]
pub(crate) fn slots_set(v: &mut heapless::Vec<NatEntry, MAX_NAT_ENTRIES>, i: usize, e: NatEntry)
    requires
        i < slots(*old(v)).len(),
    ensures
        slots(*final(v)) == slots(*old(v)).update(i as int, e),
{
    v.as_mut_slice()[i] = e;
}

/// Relies on heapless::Vec::push: appends the item when the store is below
/// its capacity, and hands the item back untouched when it is full.
#[verifier::external_body]
pub(crate) fn slots_push(
    v: &mut heapless::Vec<NatEntry, MAX_NAT_ENTRIES>,
    e: NatEntry,
) -> (r: Result<(), NatEntry>)
    ensures
        r == (if slots(*old(v)).len() < MAX_NAT_ENTRIES {
            Ok::<(), NatEntry>(())
        } else {
            Err::<(), NatEntry>(e)
        }),
        slots(*final(v)) == (if slots(*old(v)).len() < MAX_NAT_ENTRIES {
            slots(*old(v)).push(e)
        } else {
            slots(*old(v))
        }),
{
    v.push(e)
}

} // verus!
