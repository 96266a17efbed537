//! Locator rendering: the decimal digits of an assigned id are substituted
//! for every `"ID"` token of a caller-supplied template.

use vstd::prelude::*;
use vstd::string::StringExecFns;

verus! {

/// The character standing for the decimal digit value `d`.
pub open spec fn digit_char(d: nat) -> char {
    if d == 0 {
        '0'
    } else if d == 1 {
        '1'
    } else if d == 2 {
        '2'
    } else if d == 3 {
        '3'
    } else if d == 4 {
        '4'
    } else if d == 5 {
        '5'
    } else if d == 6 {
        '6'
    } else if d == 7 {
        '7'
    } else if d == 8 {
        '8'
    } else {
        '9'
    }
}

/// The decimal digits of `n`, most significant first, with no sign and no
/// leading zeros.
pub open spec fn decimal_digits(n: nat) -> Seq<char>
    decreases n,
{
    if n < 10 {
        seq![digit_char(n)]
    } else {
        decimal_digits(n / 10).push(digit_char(n % 10))
    }
}

/// `s` with every occurrence of `from`, scanned leftmost first and without
/// overlap, replaced by `to`. A `from` that is empty replaces nothing.
pub open spec fn replace_all(s: Seq<char>, from: Seq<char>, to: Seq<char>) -> Seq<char>
    decreases s.len(),
{
    if from.len() == 0 || s.len() < from.len() {
        s
    } else if s.take(from.len() as int) == from {
        to + replace_all(s.skip(from.len() as int), from, to)
    } else {
        seq![s[0]] + replace_all(s.skip(1), from, to)
    }
}

/// The placeholder token that a locator template carries.
pub open spec fn id_token() -> Seq<char> {
    seq!['I', 'D']
}

/// The locator assigned for id `n`: the template with every placeholder
/// token replaced by the decimal digits of `n`.
pub open spec fn substituted(template: Seq<char>, n: nat) -> Seq<char> {
    replace_all(template, id_token(), decimal_digits(n))
}

/// One decimal digit rendered as a string slice.
fn digit_str(d: usize) -> (r: &'static str)
    requires
        d < 10,
    ensures
        r@ == seq![digit_char(d as nat)],
{
    let r: &'static str = if d == 0 {
        "0"
    } else if d == 1 {
        "1"
    } else if d == 2 {
        "2"
    } else if d == 3 {
        "3"
    } else if d == 4 {
        "4"
    } else if d == 5 {
        "5"
    } else if d == 6 {
        "6"
    } else if d == 7 {
        "7"
    } else if d == 8 {
        "8"
    } else {
        "9"
    };
    proof {
        reveal_strlit("0");
        reveal_strlit("1");
        reveal_strlit("2");
        reveal_strlit("3");
        reveal_strlit("4");
        reveal_strlit("5");
        reveal_strlit("6");
        reveal_strlit("7");
        reveal_strlit("8");
        reveal_strlit("9");
        assert(r@ =~= seq![digit_char(d as nat)]);
    }
    r
}

/// The decimal rendering of `n`.
pub fn render_decimal(n: usize) -> (r: String)
    ensures
        r@ == decimal_digits(n as nat),
    decreases n,
{
    if n < 10 {
        String::from_str(digit_str(n))
    } else {
        let mut prefix = render_decimal(n / 10);
        prefix.append(digit_str(n % 10));
        proof {
            assert(prefix@ =~= decimal_digits(n as nat));
        }
        prefix
    }
}

/// Relies on str::replace from std: every occurrence of `from`, found
/// leftmost first and without overlap, is replaced by `to`.
#[verifier::external_body]
fn str_replace(s: &str, from: &str, to: &str) -> (r: String)
    requires
        from@.len() >= 1,
    ensures
        r@ == replace_all(s@, from@, to@),
{
    s.replace(from, to)
}

/// The location of the item with id `id`: the template with each `"ID"`
/// token replaced by the decimal digits of `id`.
pub fn render_location(template: &str, id: usize) -> (r: String)
    ensures
        r@ == substituted(template@, id as nat),
{
    let digits = render_decimal(id);
    proof {
        reveal_strlit("ID");
        assert("ID"@ =~= id_token());
    }
    str_replace(template, "ID", digits.as_str())
}

} // verus!
