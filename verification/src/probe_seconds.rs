//! Spans of seconds as they are given on a command line.
use vstd::prelude::*;
use crate::format_text::decimal;
use crate::format_text::digit;
use crate::format_text::place_value;
use crate::utf8_text::collect_chars;

verus! {

/// Why a text is no number of seconds.
#[derive(Debug, Clone, Copy, PartialEq, Eq, Structural)]
pub enum SecondsError {
    Empty,
    InvalidDigit,
    TooLarge,
}

/// Whether `c` is a decimal digit.
pub open spec fn is_digit(c: char) -> bool {
    '0' <= c <= '9'
}

/// The value of a decimal digit.
pub open spec fn digit_value(c: char) -> nat {
    (c as u32 - 48) as nat
}

/// The number whose digits from `k` on follow those that make `so_far`. The first character that
/// is no digit, or the first digit that makes the number too large, is the error.
pub open spec fn number_from(text: Seq<char>, k: int, so_far: nat) -> Result<u64, SecondsError>
    decreases text.len() - k,
{
    if k >= text.len() {
        Ok(so_far as u64)
    } else if !is_digit(text[k]) {
        Err(SecondsError::InvalidDigit)
    } else if so_far * 10 + digit_value(text[k]) > u64::MAX {
        Err(SecondsError::TooLarge)
    } else {
        number_from(text, k + 1, so_far * 10 + digit_value(text[k]))
    }
}

/// The number that a text says: decimal digits, at least one, behind an optional plus sign.
pub open spec fn number(text: Seq<char>) -> Result<u64, SecondsError> {
    if text.len() == 0 {
        Err(SecondsError::Empty)
    } else if text.len() > 1 && text[0] == '+' {
        number_from(text, 1, 0)
    } else {
        number_from(text, 0, 0)
    }
}

/// The seconds that an optional argument says, or a default without one.
pub open spec fn seconds(value: Option<Seq<char>>, default: u64) -> Result<u64, SecondsError> {
    match value {
        Some(text) => number(text),
        None => Ok(default),
    }
}

proof fn lemma_one_more_digit(text: Seq<char>, c: char, k: int, so_far: nat)
    requires
        0 <= k <= text.len(),
        so_far <= u64::MAX,
        is_digit(c),
        number_from(text, k, so_far) is Ok,
        number_from(text, k, so_far)->Ok_0 * 10 + digit_value(c) <= u64::MAX,
    ensures
        number_from(text.push(c), k, so_far) == Ok::<u64, SecondsError>(
            (number_from(text, k, so_far)->Ok_0 * 10 + digit_value(c)) as u64,
        ),
    decreases text.len() - k,
{
    reveal_with_fuel(number_from, 2);
    if k < text.len() {
        assert(text.push(c)[k] == text[k]);
        lemma_one_more_digit(text, c, k + 1, so_far * 10 + digit_value(text[k]));
    }
}

proof fn lemma_decimal_digits(n: nat)
    requires
        n <= u64::MAX,
    ensures
        decimal(n).len() > 0,
        is_digit(decimal(n)[0]),
        number_from(decimal(n), 0, 0) == Ok::<u64, SecondsError>(n as u64),
    decreases n,
{
    if n < 10 {
        reveal_with_fuel(number_from, 2);
    } else {
        lemma_decimal_digits(n / 10);
        lemma_one_more_digit(decimal(n / 10), digit(n % 10), 0, 0);
        assert(decimal(n)[0] == decimal(n / 10)[0]);
    }
}

/// A number in decimal is read back as that number.
pub proof fn decimal_is_read_back(n: u64)
    ensures
        number(decimal(n as nat)) == Ok::<u64, SecondsError>(n),
{
    lemma_decimal_digits(n as nat);
}

fn parse_number(text: &str) -> (result: Result<u64, SecondsError>)
    ensures
        result == number(text@),
{
    let chars = collect_chars(text);
    if chars.len() == 0 {
        return Err(SecondsError::Empty);
    }
    let mut k: usize = 0;
    if chars.len() > 1 && chars[0] == '+' {
        k = 1;
    }
    let mut value: u64 = 0;
    while k < chars.len()
        invariant
            chars@ == text@,
            k <= chars@.len(),
            number(text@) == number_from(text@, k as int, value as nat),
        decreases chars@.len() - k,
    {
        let c: char = chars[k];
        if c < '0' || c > '9' {
            return Err(SecondsError::InvalidDigit);
        }
        let digit: u64 = c as u64 - 48;
        if value > (u64::MAX - digit) / 10 {
            return Err(SecondsError::TooLarge);
        }
        value = value * 10 + digit;
        k = k + 1;
    }
    Ok(value)
}

/// Reads an optional number of seconds.
pub fn parse_seconds(value: Option<&str>, default: u64) -> (result: Result<u64, SecondsError>)
    ensures
        result == seconds(
            match value {
                Some(text) => Some(text@),
                None => None,
            },
            default,
        ),
{
    match value {
        Some(text) => parse_number(text),
        None => Ok(default),
    }
}

impl SecondsError {
    /// What the user is told.
    pub open spec fn text(&self) -> Seq<char> {
        match *self {
            SecondsError::Empty => "cannot parse integer from empty string"@,
            SecondsError::InvalidDigit => "invalid digit found in string"@,
            SecondsError::TooLarge => "number too large to fit in target type"@,
        }
    }

    /// What the user is told.
    pub fn message(&self) -> (message: &'static str)
        ensures
            message@ == self.text(),
    {
        match self {
            SecondsError::Empty => "cannot parse integer from empty string",
            SecondsError::InvalidDigit => "invalid digit found in string",
            SecondsError::TooLarge => "number too large to fit in target type",
        }
    }
}

/// Whether a text holds nothing but decimal digits.
pub open spec fn all_digits(text: Seq<char>) -> bool {
    forall|i: int| 0 <= i < text.len() ==> '0' <= #[trigger] text[i] <= '9'
}

proof fn lemma_value_grows(text: Seq<char>, k: int)
    requires
        0 <= k < text.len(),
    ensures
        place_value(text.take(k + 1)) == 10 * place_value(text.take(k)) + (text[k] as int
            - '0' as int),
{
    assert(text.take(k + 1).drop_last() =~= text.take(k));
}

proof fn lemma_value_is_monotone(text: Seq<char>, k: int, n: int)
    requires
        0 <= k <= n <= text.len(),
        all_digits(text.take(n)),
    ensures
        0 <= place_value(text.take(k)) <= place_value(text.take(n)),
    decreases n,
{
    if n > 0 {
        assert(all_digits(text.take(n - 1))) by {
            assert forall|i: int| 0 <= i < n - 1 implies '0' <= #[trigger] text.take(n - 1)[i]
                <= '9' by {
                assert(text.take(n - 1)[i] == text.take(n)[i]);
            }
        }
        assert('0' <= text.take(n)[n - 1] <= '9');
        lemma_value_grows(text, n - 1);
        lemma_value_is_monotone(text, if k < n {
            k
        } else {
            n - 1
        }, n - 1);
    }
}

proof fn lemma_number_from_prefix(text: Seq<char>, k: int)
    requires
        0 <= k <= text.len(),
        all_digits(text.take(k)),
        0 <= place_value(text.take(k)) <= u64::MAX,
    ensures
        ({
            let result = number_from(text, k, place_value(text.take(k)) as nat);
            &&& result is Ok <==> all_digits(text) && place_value(text) <= u64::MAX
            &&& result matches Ok(n) ==> n == place_value(text)
            &&& !(result matches Err(SecondsError::Empty))
            &&& (result matches Err(SecondsError::InvalidDigit)) <==> exists|j: int|
                k <= j < text.len() && !('0' <= #[trigger] text[j] <= '9') && all_digits(
                    text.take(j),
                ) && place_value(text.take(j)) <= u64::MAX
        }),
    decreases text.len() - k,
{
    let value = place_value(text.take(k));
    if k == text.len() {
        assert(text.take(k) =~= text);
    } else if !is_digit(text[k]) {
        assert(!('0' <= text[k] <= '9'));
    } else {
        lemma_value_grows(text, k);
        assert forall|i: int| 0 <= i < k + 1 implies '0' <= #[trigger] text.take(k + 1)[i]
            <= '9' by {
            if i < k {
                assert(text.take(k + 1)[i] == text.take(k)[i]);
            }
        }
        assert(value * 10 + digit_value(text[k]) == place_value(text.take(k + 1)));
        if place_value(text.take(k + 1)) <= u64::MAX {
            lemma_number_from_prefix(text, k + 1);
        } else {
            if all_digits(text) {
                assert(text.take(text.len() as int) =~= text);
                lemma_value_is_monotone(text, k + 1, text.len() as int);
            }
            assert forall|j: int| k <= j < text.len() && !('0' <= #[trigger] text[j] <= '9')
                && all_digits(text.take(j)) implies place_value(text.take(j)) > u64::MAX by {
                lemma_value_is_monotone(text, k + 1, j);
            }
        }
    }
}

proof fn lemma_number_from_shift(text: Seq<char>, k: int, so_far: nat)
    requires
        text.len() > 0,
        0 <= k < text.len(),
    ensures
        number_from(text, k + 1, so_far) == number_from(text.drop_first(), k, so_far),
    decreases text.len() - k,
{
    if k + 1 < text.len() {
        assert(text.drop_first()[k] == text[k + 1]);
        lemma_number_from_shift(text, k + 1, so_far * 10 + digit_value(text[k + 1]));
    }
}

/// A text without the plus sign that stands in front of it, if something follows the sign.
pub open spec fn without_plus(text: Seq<char>) -> Seq<char> {
    if text.len() > 1 && text[0] == '+' {
        text.skip(1)
    } else {
        text
    }
}

/// Whether the character at `j` is the first fault: it is no digit, and the digits before it do not
/// say too large a number.
pub open spec fn faulty_at(digits: Seq<char>, j: int) -> bool {
    &&& 0 <= j < digits.len()
    &&& !('0' <= digits[j] <= '9')
    &&& all_digits(digits.take(j))
    &&& place_value(digits.take(j)) <= u64::MAX
}

/// A text is read exactly when it is a row of decimal digits, a plus sign in front being passed
/// over, that says a number in range, and it is read as that number. Only the empty text is empty;
/// a character that is no digit is the fault unless the digits before it already say too large a
/// number.
pub proof fn numbers_are_read_by_place(text: Seq<char>)
    ensures
        number(text) is Ok <==> text.len() > 0 && all_digits(without_plus(text)) && place_value(
            without_plus(text),
        ) <= u64::MAX,
        number(text) matches Ok(n) ==> n == place_value(without_plus(text)),
        (number(text) matches Err(SecondsError::Empty)) <==> text.len() == 0,
        (number(text) matches Err(SecondsError::InvalidDigit)) <==> exists|j: int| #[trigger]
            faulty_at(without_plus(text), j),
{
    let digits = without_plus(text);
    assert(digits.take(0) =~= Seq::<char>::empty());
    assert(place_value(digits.take(0)) == 0);
    lemma_number_from_prefix(digits, 0);
    if text.len() > 1 && text[0] == '+' {
        assert(text.skip(1) =~= text.drop_first());
        lemma_number_from_shift(text, 0, 0);
    }
    if number(text) matches Err(SecondsError::InvalidDigit) {
        let j = choose|j: int|
            0 <= j < digits.len() && !('0' <= #[trigger] digits[j] <= '9') && all_digits(
                digits.take(j),
            ) && place_value(digits.take(j)) <= u64::MAX;
        assert(faulty_at(digits, j));
    }
    assert forall|j: int| #[trigger] faulty_at(digits, j) implies (number(text) matches Err(
        SecondsError::InvalidDigit,
    )) by {
        assert(!('0' <= digits[j] <= '9'));
    }
}

/// Without an argument the default counts, and with one only the argument; each fault is told in
/// its own words.
pub proof fn given_seconds_come_first(value: Option<Seq<char>>, default: u64)
    ensures
        value is None ==> seconds(value, default) == Ok::<u64, SecondsError>(default),
        value matches Some(text) ==> seconds(value, default) == number(text),
        SecondsError::Empty.text() == "cannot parse integer from empty string"@,
        SecondsError::InvalidDigit.text() == "invalid digit found in string"@,
        SecondsError::TooLarge.text() == "number too large to fit in target type"@,
{
}

} // verus!
