//! The view of a sequence of values.

use vstd::prelude::*;

verus! {

/// The views of the items of a sequence, one by one and in their order.
pub open spec fn views_of<T: View>(items: Seq<T>) -> Seq<T::V> {
    items.map_values(|item: T| item@)
}

} // verus!
