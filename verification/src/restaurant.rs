//! A restaurant, organised the way the staff think about it: the front of
//! house seats and serves guests, the back of house cooks. The module tree
//! mirrors that layout, and `hosting` is re-exported so guests need not
//! know which part of the house seats them.

mod front_of_house;

pub mod back_of_house;

pub use front_of_house::hosting;

use self::back_of_house::Appetizer;
use self::front_of_house::serving;
use vstd::prelude::*;

verus! {

#[allow(dead_code)]
fn serve_order() {
}

/// A visit that leans on `use` declarations: join the waitlist a few
/// times, have an order taken, and pick an appetizer.
pub fn eat_at_restaurant_with_use() {
    hosting::add_to_waitlist();
    hosting::add_to_waitlist();
    hosting::add_to_waitlist();

    serving::take_order();

    let _order = Appetizer::Soup;
}

} // verus!
