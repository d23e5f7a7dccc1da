use std::sync::atomic::Ordering;
use vstd::prelude::*;

verus! {

/// A load can be sequentially consistent, acquire or relaxed; a
/// release-only ordering has no meaning for it.
pub open spec fn load_ordering_ok(order: Ordering) -> bool {
    order != Ordering::Release && order != Ordering::AcqRel
}

/// A store can be sequentially consistent, release or relaxed; an
/// acquire-only ordering has no meaning for it.
pub open spec fn store_ordering_ok(order: Ordering) -> bool {
    order != Ordering::Acquire && order != Ordering::AcqRel
}

/// The orderings of a compare-exchange: any ordering on success, and on
/// failure, where only a load takes place, one that a load accepts.
pub open spec fn exchange_orderings_ok(success: Ordering, failure: Ordering) -> bool {
    load_ordering_ok(failure)
}

/// Tells whether `order` is accepted by `load`.
pub fn is_load_ordering(order: Ordering) -> (r: bool)
    ensures
        r == load_ordering_ok(order),
{
    match order {
        Ordering::Release => false,
        Ordering::AcqRel => false,
        _ => true,
    }
}

/// Tells whether `order` is accepted by `store`.
pub fn is_store_ordering(order: Ordering) -> (r: bool)
    ensures
        r == store_ordering_ok(order),
{
    match order {
        Ordering::Acquire => false,
        Ordering::AcqRel => false,
        _ => true,
    }
}

} // verus!
