//! Decimal text of integers.
use vstd::prelude::*;
use vstd::string::StringExecFns;

verus! {

/// The decimal digit for `d` (below ten).
pub open spec fn digit_char(d: nat) -> char {
    if d == 0 { '0' }
    else if d == 1 { '1' }
    else if d == 2 { '2' }
    else if d == 3 { '3' }
    else if d == 4 { '4' }
    else if d == 5 { '5' }
    else if d == 6 { '6' }
    else if d == 7 { '7' }
    else if d == 8 { '8' }
    else { '9' }
}

/// The decimal digits of `n`, most significant first, without leading zeros.
pub open spec fn digits(n: nat) -> Seq<char>
    decreases n,
{
    if n < 10 {
        seq![digit_char(n)]
    } else {
        digits(n / 10) + seq![digit_char(n % 10)]
    }
}

/// The decimal text of `n`, with a leading `-` when it is negative (as Rust
/// displays integers).
pub open spec fn decimal(n: int) -> Seq<char> {
    if n < 0 {
        seq!['-'] + digits((-n) as nat)
    } else {
        digits(n as nat)
    }
}

/// The number a decimal digit stands for.
pub open spec fn digit_value(c: char) -> int {
    if c == '1' { 1 }
    else if c == '2' { 2 }
    else if c == '3' { 3 }
    else if c == '4' { 4 }
    else if c == '5' { 5 }
    else if c == '6' { 6 }
    else if c == '7' { 7 }
    else if c == '8' { 8 }
    else if c == '9' { 9 }
    else { 0 }
}

/// The number a string of decimal digits reads as.
pub open spec fn digits_value(text: Seq<char>) -> int
    decreases text.len(),
{
    if text.len() == 0 {
        0
    } else {
        digits_value(text.drop_last()) * 10 + digit_value(text.last())
    }
}

/// The integer a decimal text (with an optional leading `-`) reads as.
pub open spec fn decimal_value(text: Seq<char>) -> int {
    if text.len() > 0 && text[0] == '-' {
        -digits_value(text.drop_first())
    } else {
        digits_value(text)
    }
}

/// The digits of a natural number read back as that number, and they do
/// not start with a sign.
pub proof fn digits_round_trip(n: nat)
    ensures
        digits_value(digits(n)) == n,
        digits(n).len() > 0,
        digits(n)[0] != '-',
    decreases n,
{
    if n < 10 {
        assert(digits(n).drop_last() =~= Seq::<char>::empty());
        assert(digit_value(digit_char(n)) == n);
        assert(digits(n).last() == digit_char(n));
        assert(digits_value(digits(n)) == digits_value(Seq::<char>::empty()) * 10 + digit_value(
            digit_char(n),
        ));
    } else {
        digits_round_trip(n / 10);
        let d = (n % 10) as nat;
        assert(digit_value(digit_char(d)) == d);
        let text = digits(n);
        assert(text.drop_last() =~= digits(n / 10));
        assert(text.last() == digit_char(n % 10));
        assert(text[0] == digits(n / 10)[0]);
        assert((n / 10) * 10 + n % 10 == n) by (nonlinear_arith);
        assert(digits_value(text) == digits_value(digits(n / 10)) * 10 + digit_value(digit_char(d)));
        assert(digits_value(text) == (n / 10) * 10 + d);
        assert(digits_value(text) == n);
    }
}

/// The decimal text of an integer reads back as that integer: the text
/// says exactly which number it shows, sign included.
pub proof fn decimal_round_trip(n: int)
    ensures
        decimal_value(decimal(n)) == n,
        decimal(n).len() > 0,
        (decimal(n)[0] == '-') == (n < 0),
{
    if n < 0 {
        digits_round_trip((-n) as nat);
        assert(decimal(n).drop_first() =~= digits((-n) as nat));
    } else {
        digits_round_trip(n as nat);
    }
}

fn digit_str(d: u64) -> (text: &'static str)
    requires
        d < 10,
    ensures
        text@ == seq![digit_char(d as nat)],
{
    proof {
        reveal_strlit("0");
        reveal_strlit("1");
        reveal_strlit("2");
        reveal_strlit("3");
        reveal_strlit("4");
        reveal_strlit("5");
        reveal_strlit("6");
        reveal_strlit("7");
        reveal_strlit("8");
        reveal_strlit("9");
    }
    if d == 0 {
        "0"
    } else if d == 1 {
        "1"
    } else if d == 2 {
        "2"
    } else if d == 3 {
        "3"
    } else if d == 4 {
        "4"
    } else if d == 5 {
        "5"
    } else if d == 6 {
        "6"
    } else if d == 7 {
        "7"
    } else if d == 8 {
        "8"
    } else {
        "9"
    }
}

fn digits_text(n: u64) -> (text: String)
    ensures
        text@ == digits(n as nat),
    decreases n,
{
    if n < 10 {
        String::from_str(digit_str(n))
    } else {
        let mut text = digits_text(n / 10);
        text.append(digit_str(n % 10));
        text
    }
}

/// The decimal text of `value`.
pub fn decimal_text(value: i64) -> (text: String)
    ensures
        text@ == decimal(value as int),
{
    if value < 0 {
        let magnitude: u64 = (-(value as i128)) as u64;
        let mut text = String::from_str("-");
        proof {
            reveal_strlit("-");
        }
        text.append(digits_text(magnitude).as_str());
        text
    } else {
        digits_text(value as u64)
    }
}

} // verus!
