//! Text building blocks for fixtures: decimal rendering of a number and a
//! label joined with a number.

use vstd::prelude::*;
use vstd::string::*;

verus! {

/// The character of a single decimal digit.
pub open spec fn digit_char(d: nat) -> char {
    if d == 0 {
        '0'
    } else if d == 1 {
        '1'
    } else if d == 2 {
        '2'
    } else if d == 3 {
        '3'
    } else if d == 4 {
        '4'
    } else if d == 5 {
        '5'
    } else if d == 6 {
        '6'
    } else if d == 7 {
        '7'
    } else if d == 8 {
        '8'
    } else {
        '9'
    }
}

/// The decimal rendering of `n`, most significant digit first, without
/// leading zeros (zero itself is "0").
pub open spec fn decimal_digits(n: nat) -> Seq<char>
    decreases n,
{
    if n < 10 {
        seq![digit_char(n)]
    } else {
        decimal_digits(n / 10).push(digit_char(n % 10))
    }
}

/// The one-character text of a decimal digit.
pub fn digit_text(d: usize) -> (text: &'static str)
    requires
        d < 10,
    ensures
        text@ == seq![digit_char(d as nat)],
{
    proof {
        reveal_strlit("0");
        reveal_strlit("1");
        reveal_strlit("2");
        reveal_strlit("3");
        reveal_strlit("4");
        reveal_strlit("5");
        reveal_strlit("6");
        reveal_strlit("7");
        reveal_strlit("8");
        reveal_strlit("9");
    }
    let text: &'static str = if d == 0 {
        "0"
    } else if d == 1 {
        "1"
    } else if d == 2 {
        "2"
    } else if d == 3 {
        "3"
    } else if d == 4 {
        "4"
    } else if d == 5 {
        "5"
    } else if d == 6 {
        "6"
    } else if d == 7 {
        "7"
    } else if d == 8 {
        "8"
    } else {
        "9"
    };
    assert(text@ =~= seq![digit_char(d as nat)]);
    text
}

/// Renders `n` in decimal.
pub fn decimal(n: usize) -> (text: String)
    ensures
        text@ == decimal_digits(n as nat),
    decreases n,
{
    if n < 10 {
        String::from_str(digit_text(n))
    } else {
        let mut text = decimal(n / 10);
        text.append(digit_text(n % 10));
        assert(text@ =~= decimal_digits(n as nat));
        text
    }
}

/// `prefix` followed by the decimal rendering of `n`.
pub fn label_number(prefix: &str, n: usize) -> (text: String)
    ensures
        text@ == prefix@ + decimal_digits(n as nat),
{
    let mut text = String::from_str(prefix);
    let digits = decimal(n);
    text.append(digits.as_str());
    text
}

/// The decimal rendering of `n` followed by `suffix`.
pub fn number_label(n: usize, suffix: &str) -> (text: String)
    ensures
        text@ == decimal_digits(n as nat) + suffix@,
{
    let mut text = decimal(n);
    text.append(suffix);
    text
}

/// Every number has at least one digit.
pub proof fn decimal_digits_nonempty(n: nat)
    ensures
        decimal_digits(n).len() >= 1,
    decreases n,
{
    if n >= 10 {
        decimal_digits_nonempty(n / 10);
    }
}

/// Different digits have different characters.
pub proof fn digit_char_injective(a: nat, b: nat)
    requires
        a < 10,
        b < 10,
        digit_char(a) == digit_char(b),
    ensures
        a == b,
{
}

/// Different numbers have different decimal renderings.
pub proof fn decimal_digits_injective(a: nat, b: nat)
    requires
        decimal_digits(a) == decimal_digits(b),
    ensures
        a == b,
    decreases a,
{
    if a < 10 && b < 10 {
        assert(decimal_digits(a)[0] == digit_char(a));
        assert(decimal_digits(b)[0] == digit_char(b));
        digit_char_injective(a, b);
    } else if a < 10 {
        decimal_digits_nonempty(b / 10);
        assert(decimal_digits(a).len() == 1);
        assert(decimal_digits(b).len() == decimal_digits(b / 10).len() + 1);
    } else if b < 10 {
        decimal_digits_nonempty(a / 10);
        assert(decimal_digits(b).len() == 1);
        assert(decimal_digits(a).len() == decimal_digits(a / 10).len() + 1);
    } else {
        let left = decimal_digits(a / 10).push(digit_char(a % 10));
        let right = decimal_digits(b / 10).push(digit_char(b % 10));
        assert(left == decimal_digits(a));
        assert(right == decimal_digits(b));
        assert(left.last() == right.last());
        assert(left.drop_last() =~= decimal_digits(a / 10));
        assert(right.drop_last() =~= decimal_digits(b / 10));
        decimal_digits_injective(a / 10, b / 10);
        digit_char_injective(a % 10, b % 10);
    }
}

/// A label joined with different numbers gives different texts.
pub proof fn labelled_numbers_differ(prefix: Seq<char>, a: nat, b: nat)
    requires
        prefix + decimal_digits(a) == prefix + decimal_digits(b),
    ensures
        a == b,
{
    let left = prefix + decimal_digits(a);
    let right = prefix + decimal_digits(b);
    assert(left.subrange(prefix.len() as int, left.len() as int) =~= decimal_digits(a));
    assert(right.subrange(prefix.len() as int, right.len() as int) =~= decimal_digits(b));
    decimal_digits_injective(a, b);
}

} // verus!
