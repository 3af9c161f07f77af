//! A screen of drawable components.
//!
//! [`Draw`] is the interface a component offers: it renders itself as a
//! line of text, pinned down by the component's own `spec_draw`. A
//! [`Screen`] holds components and [`Screen::run`] renders them in order;
//! printing the rendered lines is left to the caller.

use vstd::prelude::*;
use vstd::string::StrSliceExecFns;
use vstd::string::StringExecFns;

verus! {

/// A digit character, for `d` between 0 and 9.
pub open spec fn digit_char(d: nat) -> char {
    if d == 0 {
        '0'
    } else if d == 1 {
        '1'
    } else if d == 2 {
        '2'
    } else if d == 3 {
        '3'
    } else if d == 4 {
        '4'
    } else if d == 5 {
        '5'
    } else if d == 6 {
        '6'
    } else if d == 7 {
        '7'
    } else if d == 8 {
        '8'
    } else {
        '9'
    }
}

/// The decimal digits of `n`, most significant first, without leading
/// zeros (a single `'0'` for zero).
pub open spec fn decimal_digits(n: nat) -> Seq<char>
    decreases n,
{
    if n < 10 {
        seq![digit_char(n)]
    } else {
        decimal_digits(n / 10).push(digit_char(n % 10))
    }
}

/// The decimal digit `d` as a string slice.
fn digit_str(d: u32) -> (r: &'static str)
    requires
        d < 10,
    ensures
        r@ == seq![digit_char(d as nat)],
{
    let r = match d {
        0 => "0",
        1 => "1",
        2 => "2",
        3 => "3",
        4 => "4",
        5 => "5",
        6 => "6",
        7 => "7",
        8 => "8",
        _ => "9",
    };
    proof {
        reveal_strlit("0");
        reveal_strlit("1");
        reveal_strlit("2");
        reveal_strlit("3");
        reveal_strlit("4");
        reveal_strlit("5");
        reveal_strlit("6");
        reveal_strlit("7");
        reveal_strlit("8");
        reveal_strlit("9");
        assert(r@ =~= seq![digit_char(d as nat)]);
    }
    r
}

/// Renders `n` in decimal.
pub fn u32_string(n: u32) -> (r: String)
    ensures
        r@ == decimal_digits(n as nat),
    decreases n,
{
    if n < 10 {
        let r = String::from_str(digit_str(n));
        r
    } else {
        let mut r = u32_string(n / 10);
        r.append(digit_str(n % 10));
        r
    }
}

/// A component that can render itself as a line of text. `spec_draw` is
/// the component's own statement of what it renders; `draw` must return
/// exactly that.
pub trait Draw {
    /// The text this component renders.
    spec fn spec_draw(&self) -> Seq<char>;

    /// Renders the component.
    fn draw(&self) -> (r: String)
        ensures
            r@ == self.spec_draw(),
    ;
}

/// A collection of drawable components, rendered in order.
pub struct Screen<T: Draw> {
    pub components: Vec<T>,
}

impl<T: Draw> Screen<T> {
    /// Renders every component, in the order they are held.
    pub fn run(&self) -> (r: Vec<String>)
        ensures
            r.deep_view() == Seq::new(
                self.components@.len(),
                |i: int| self.components@[i].spec_draw(),
            ),
    {
        let ghost want = Seq::new(
            self.components@.len(),
            |i: int| self.components@[i].spec_draw(),
        );
        let mut r: Vec<String> = Vec::new();
        let mut i: usize = 0;
        proof {
            assert(r.deep_view() =~= want.take(0));
        }
        while i < self.components.len()
            invariant
                i <= self.components@.len(),
                want == Seq::new(
                    self.components@.len(),
                    |j: int| self.components@[j].spec_draw(),
                ),
                r.deep_view() == want.take(i as int),
            decreases self.components@.len() - i,
        {
            let ghost sofar = r.deep_view();
            let rendered = self.components[i].draw();
            r.push(rendered);
            proof {
                assert(r.deep_view() =~= sofar.push(self.components@[i as int].spec_draw()));
                assert(want.take(i + 1) =~= want.take(i as int).push(want[i as int]));
            }
            i += 1;
        }
        proof {
            assert(want.take(self.components@.len() as int) =~= want);
        }
        r
    }
}

/// A push button: a label and a size in pixels.
pub struct Button {
    pub width: u32,
    pub height: u32,
    pub label: String,
}

impl Draw for Button {
    open spec fn spec_draw(&self) -> Seq<char> {
        "Drawing a button named "@ + self.label@ + " that is "@ + decimal_digits(
            self.width as nat,
        ) + "x"@ + decimal_digits(self.height as nat)
    }

    fn draw(&self) -> (r: String) {
        let mut r = String::from_str("Drawing a button named ");
        r.append(self.label.as_str());
        r.append(" that is ");
        r.append(u32_string(self.width).as_str());
        r.append("x");
        r.append(u32_string(self.height).as_str());
        proof {
            assert(r@ =~= self.spec_draw());
        }
        r
    }
}

} // verus!
