//! The textual forms of numbers, flags and optional values in log lines.
use vstd::prelude::*;
use vstd::string::*;

verus! {

/// The character of one decimal digit.
pub open spec fn digit(d: nat) -> char {
    (48 + d) as char
}

/// A natural number in decimal, without leading zeros.
pub open spec fn decimal(n: nat) -> Seq<char>
    decreases n,
{
    if n < 10 {
        seq![digit(n)]
    } else {
        decimal(n / 10).push(digit(n % 10))
    }
}

/// An integer in decimal, with a minus sign in front when it is negative.
pub open spec fn signed_decimal(i: int) -> Seq<char> {
    if i < 0 {
        "-"@ + decimal((-i) as nat)
    } else {
        decimal(i as nat)
    }
}

/// A flag as `true` or `false`.
pub open spec fn flag(b: bool) -> Seq<char> {
    if b {
        "true"@
    } else {
        "false"@
    }
}

/// An optional value as `Some(..)` or `None`, given the form of the value.
pub open spec fn optional(value: Option<Seq<char>>) -> Seq<char> {
    match value {
        Some(inner) => "Some("@ + inner + ")"@,
        None => "None"@,
    }
}

/// An optional natural number as `Some(..)` or `None`.
pub open spec fn optional_decimal(value: Option<u64>) -> Seq<char> {
    match value {
        Some(n) => optional(Some(decimal(n as nat))),
        None => optional(None),
    }
}

/// An optional integer as `Some(..)` or `None`.
pub open spec fn optional_signed(value: Option<i32>) -> Seq<char> {
    match value {
        Some(i) => optional(Some(signed_decimal(i as int))),
        None => optional(None),
    }
}

/// An optional flag as `Some(..)` or `None`.
pub open spec fn optional_flag(value: Option<bool>) -> Seq<char> {
    match value {
        Some(b) => optional(Some(flag(b))),
        None => optional(None),
    }
}

fn digit_text(d: u128) -> (text: &'static str)
    requires
        d < 10,
    ensures
        text@ == seq![digit(d as nat)],
{
    proof {
        reveal_strlit("0");
        reveal_strlit("1");
        reveal_strlit("2");
        reveal_strlit("3");
        reveal_strlit("4");
        reveal_strlit("5");
        reveal_strlit("6");
        reveal_strlit("7");
        reveal_strlit("8");
        reveal_strlit("9");
    }
    if d == 0 {
        "0"
    } else if d == 1 {
        "1"
    } else if d == 2 {
        "2"
    } else if d == 3 {
        "3"
    } else if d == 4 {
        "4"
    } else if d == 5 {
        "5"
    } else if d == 6 {
        "6"
    } else if d == 7 {
        "7"
    } else if d == 8 {
        "8"
    } else {
        "9"
    }
}

/// Appends `n` in decimal.
pub fn push_decimal(out: &mut String, n: u128)
    ensures
        final(out)@ == old(out)@ + decimal(n as nat),
    decreases n,
{
    if n >= 10 {
        push_decimal(out, n / 10);
    }
    out.append(digit_text(n % 10));
    assert(out@ =~= old(out)@ + decimal(n as nat));
}

/// Appends `i` in decimal, with its sign.
pub fn push_signed(out: &mut String, i: i64)
    ensures
        final(out)@ == old(out)@ + signed_decimal(i as int),
{
    if i < 0 {
        out.append("-");
        let magnitude: i128 = -(i as i128);
        push_decimal(out, magnitude as u128);
    } else {
        push_decimal(out, i as u128);
    }
    assert(out@ =~= old(out)@ + signed_decimal(i as int));
}

/// Appends `true` or `false`.
pub fn push_flag(out: &mut String, b: bool)
    ensures
        final(out)@ == old(out)@ + flag(b),
{
    if b {
        out.append("true");
    } else {
        out.append("false");
    }
}

/// Appends an optional natural number.
pub fn push_optional_decimal(out: &mut String, value: Option<u64>)
    ensures
        final(out)@ == old(out)@ + optional_decimal(value),
{
    match value {
        Some(n) => {
            out.append("Some(");
            push_decimal(out, n as u128);
            out.append(")");
        },
        None => {
            out.append("None");
        },
    }
    assert(out@ =~= old(out)@ + optional_decimal(value));
}

/// Appends an optional integer.
pub fn push_optional_signed(out: &mut String, value: Option<i32>)
    ensures
        final(out)@ == old(out)@ + optional_signed(value),
{
    match value {
        Some(i) => {
            out.append("Some(");
            push_signed(out, i as i64);
            out.append(")");
        },
        None => {
            out.append("None");
        },
    }
    assert(out@ =~= old(out)@ + optional_signed(value));
}

/// Appends an optional flag.
pub fn push_optional_flag(out: &mut String, value: Option<bool>)
    ensures
        final(out)@ == old(out)@ + optional_flag(value),
{
    match value {
        Some(b) => {
            out.append("Some(");
            push_flag(out, b);
            out.append(")");
        },
        None => {
            out.append("None");
        },
    }
    assert(out@ =~= old(out)@ + optional_flag(value));
}

/// The number that a row of decimal digits says, each digit worth ten times the one behind it.
pub open spec fn place_value(digits: Seq<char>) -> int
    decreases digits.len(),
{
    if digits.len() == 0 {
        0
    } else {
        10 * place_value(digits.drop_last()) + (digits.last() as int - '0' as int)
    }
}

/// A number in decimal is a row of digits that says the number, without a zero in front unless the
/// number is zero.
pub proof fn decimal_says_its_number(n: nat)
    ensures
        place_value(decimal(n)) == n,
        decimal(n).len() > 0,
        forall|i: int| 0 <= i < decimal(n).len() ==> '0' <= #[trigger] decimal(n)[i] <= '9',
        n > 0 ==> decimal(n)[0] != '0',
        n == 0 ==> decimal(n) == seq!['0'],
    decreases n,
{
    reveal_with_fuel(place_value, 2);
    if n < 10 {
        assert(seq![digit(n)].drop_last() =~= Seq::<char>::empty());
    } else {
        decimal_says_its_number(n / 10);
        assert(decimal(n).drop_last() =~= decimal(n / 10));
    }
}

/// No two numbers look the same in decimal.
pub proof fn decimals_differ(n: nat, m: nat)
    requires
        decimal(n) == decimal(m),
    ensures
        n == m,
{
    decimal_says_its_number(n);
    decimal_says_its_number(m);
}

/// An integer is written as its distance from zero, behind a minus sign exactly when it is
/// negative.
pub proof fn signs_tell_negative_numbers(i: int)
    ensures
        i < 0 ==> signed_decimal(i) == seq!['-'] + decimal((-i) as nat),
        i >= 0 ==> signed_decimal(i) == decimal(i as nat),
{
    reveal_strlit("-");
    assert("-"@ =~= seq!['-']);
}

/// A flag is written as the word for its value, and an optional value as `Some` around the value
/// or as `None`.
pub proof fn values_are_written_out(
    set: bool,
    number: Option<u64>,
    integer: Option<i32>,
    choice: Option<bool>,
)
    ensures
        set ==> flag(set) == "true"@,
        !set ==> flag(set) == "false"@,
        number is None ==> optional_decimal(number) == "None"@,
        number matches Some(n) ==> optional_decimal(number) == "Some("@ + decimal(n as nat) + ")"@,
        integer is None ==> optional_signed(integer) == "None"@,
        integer matches Some(i) ==> optional_signed(integer) == "Some("@ + signed_decimal(i as int)
            + ")"@,
        choice is None ==> optional_flag(choice) == "None"@,
        choice == Some(true) ==> optional_flag(choice) == "Some(true)"@,
        choice == Some(false) ==> optional_flag(choice) == "Some(false)"@,
{
    reveal_strlit("Some(");
    reveal_strlit(")");
    reveal_strlit("true");
    reveal_strlit("false");
    reveal_strlit("Some(true)");
    reveal_strlit("Some(false)");
    assert("Some("@ + "true"@ + ")"@ =~= "Some(true)"@);
    assert("Some("@ + "false"@ + ")"@ =~= "Some(false)"@);
}

} // verus!
