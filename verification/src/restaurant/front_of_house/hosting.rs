//! The host stand: taking guests in and seating them.

use vstd::prelude::*;

verus! {

/// Puts a party on the waitlist; the serving staff pick their order up
/// from there.
pub fn add_to_waitlist() {
    super::serving::take_order()
}

/// Seats a waiting party.
pub fn seat_at_table() {
}

} // verus!
