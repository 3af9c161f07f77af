use workbook::restaurant::back_of_house::Appetizer;
use workbook::restaurant::back_of_house::Breakfast;
use workbook::restaurant::eat_at_restaurant_with_use;
use workbook::restaurant::hosting;

#[test]
fn summer_breakfast_takes_the_requested_toast() {
    let meal = Breakfast::summer("Rye");
    assert_eq!("Rye", meal.toast);
}

#[test]
fn toast_can_be_changed_after_ordering() {
    let mut meal = Breakfast::summer("Rye");
    meal.toast = "Wheat".to_string();
    assert_eq!("Wheat", meal.toast);
}

#[test]
fn appetizers_are_distinct() {
    assert_ne!(Appetizer::Soup, Appetizer::Salad);
    assert!(matches!(Appetizer::Soup, Appetizer::Soup));
}

#[test]
fn front_of_house_is_reachable_through_the_reexport() {
    hosting::add_to_waitlist();
    hosting::seat_at_table();
}

#[test]
fn a_visit_with_use_declarations_runs() {
    eat_at_restaurant_with_use();
}
