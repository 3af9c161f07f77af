use workbook::lifetimes::longest;
use workbook::lifetimes::ref_and_val;
use workbook::lifetimes::return_passed_in;

#[test]
fn longest_picks_the_longer_string() {
    let string1 = String::from("abcd");
    let string2 = "xyz";
    assert_eq!("abcd", longest(string1.as_str(), string2));
    assert_eq!("wxyz", longest("abc", "wxyz"));
}

#[test]
fn longest_ties_go_to_the_second() {
    assert_eq!("xyz", longest("abc", "xyz"));
}

#[test]
fn return_passed_in_is_the_identity() {
    assert_eq!("abcd", return_passed_in("abcd"));
}

#[test]
fn ref_and_val_returns_the_reference() {
    let five = 5;
    assert_eq!("abcd", ref_and_val("abcd", five));
    let my_str = String::from("A string");
    assert_eq!("abcd", ref_and_val("abcd", my_str));
}
