//! The serving staff, between the guests and the kitchen.

use vstd::prelude::*;

verus! {

/// Takes a party's order.
pub fn take_order() {
}

} // verus!
