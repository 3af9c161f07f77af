//! The kitchen side of the house: breakfasts and appetizers.

use vstd::prelude::*;
use vstd::string::StringExecFns;

verus! {

/// A breakfast order: the guest picks the toast, the kitchen picks the
/// fruit of the season.
pub struct Breakfast {
    pub toast: String,
    seasonal_fruit: String,
}

impl Breakfast {
    /// The chosen toast.
    pub closed spec fn spec_toast(self) -> Seq<char> {
        self.toast@
    }

    /// The fruit the kitchen chose; guests cannot pick it.
    pub closed spec fn spec_fruit(self) -> Seq<char> {
        self.seasonal_fruit@
    }

    /// A summer breakfast: the requested toast, and peaches, because it
    /// is summer.
    pub fn summer(toast: &str) -> (b: Breakfast)
        ensures
            b.spec_toast() == toast@,
            b.spec_fruit() == "peaches"@,
    {
        Breakfast { toast: String::from_str(toast), seasonal_fruit: String::from_str("peaches") }
    }
}

/// The appetizers on the menu.
#[derive(Clone, Copy, Debug, PartialEq, Eq, Structural)]
pub enum Appetizer {
    Soup,
    Salad,
}

#[allow(dead_code)]
fn fix_incorrect_order() {
    cook_order();
    super::serve_order();
}

#[allow(dead_code)]
fn cook_order() {
}

} // verus!
