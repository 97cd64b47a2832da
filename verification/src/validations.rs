//! Card-number validation: whitespace stripping, digit parsing, ISO length bounds
//! and the Luhn checksum.

use vstd::prelude::*;

use crate::error::ApiError;
use crate::text::{chars_to_string, str_to_chars};

verus! {

/// Minimum limit of a card number will not deceed 8 by ISO standards
pub const MIN_CARD_NUMBER_LENGTH: usize = 8;

/// Maximum limit of a card number will not exceed 19 by ISO standards
pub const MAX_CARD_NUMBER_LENGTH: usize = 19;

/// The Unicode `White_Space` characters (the set `char::is_whitespace` accepts).
pub open spec fn is_unicode_whitespace(c: char) -> bool {
    let u = c as u32;
    ||| 0x09 <= u <= 0x0D
    ||| u == 0x20 || u == 0x85 || u == 0xA0 || u == 0x1680
    ||| 0x2000 <= u <= 0x200A
    ||| u == 0x2028 || u == 0x2029 || u == 0x202F || u == 0x205F || u == 0x3000
}

/// `s` with every whitespace character removed, the others kept in order.
pub open spec fn without_whitespace(s: Seq<char>) -> Seq<char>
    decreases s.len(),
{
    if s.len() == 0 {
        Seq::empty()
    } else if is_unicode_whitespace(s.last()) {
        without_whitespace(s.drop_last())
    } else {
        without_whitespace(s.drop_last()).push(s.last())
    }
}

pub open spec fn is_ascii_digit(c: char) -> bool {
    '0' <= c && c <= '9'
}

pub open spec fn all_ascii_digits(s: Seq<char>) -> bool {
    forall|i: int| 0 <= i < s.len() ==> is_ascii_digit(#[trigger] s[i])
}

/// The numeric value of an ASCII digit.
pub open spec fn digit_value(c: char) -> u8 {
    (c as u32 - '0' as u32) as u8
}

pub open spec fn digit_values(s: Seq<char>) -> Seq<u8> {
    s.map_values(|c: char| digit_value(c))
}

/// The Luhn contribution of digit `e` standing `idx` places from the right end:
/// every second digit (odd `idx`) is doubled and its two decimal digits summed.
pub open spec fn luhn_term(e: u8, idx: int) -> int {
    if idx % 2 == 1 {
        (2 * e) / 10 + (2 * e) % 10
    } else {
        e as int
    }
}

/// Sum of the Luhn terms of the last `k` elements of `s`.
pub open spec fn luhn_partial(s: Seq<u8>, k: int) -> int
    decreases k,
{
    if k <= 0 {
        0
    } else {
        luhn_partial(s, k - 1) + luhn_term(s[s.len() - k], k - 1)
    }
}

/// Sum of the Luhn terms of all elements of `s`.
pub open spec fn luhn_sum(s: Seq<u8>) -> int {
    luhn_partial(s, s.len() as int)
}

/// The verdict on a raw card number: the error the validation reports, or whether the
/// digits pass the Luhn check.
pub open spec fn card_number_verdict(s: Seq<char>) -> Result<bool, ApiError> {
    let stripped = without_whitespace(s);
    if !all_ascii_digits(stripped) {
        Err(ApiError::ValidationError("invalid character found in card number"))
    } else if !(MIN_CARD_NUMBER_LENGTH <= stripped.len() <= MAX_CARD_NUMBER_LENGTH) {
        Err(ApiError::ValidationError("invalid card number length"))
    } else {
        Ok(luhn_sum(digit_values(stripped)) % 10 == 0)
    }
}

proof fn lemma_luhn_term_bounds(e: u8, idx: int)
    requires
        e < 128,
    ensures
        0 <= luhn_term(e, idx) <= 127,
        e <= 9 ==> luhn_term(e, idx) <= 9,
{
}

proof fn lemma_luhn_partial_monotone(s: Seq<u8>, j: int, k: int)
    requires
        0 <= j <= k <= s.len(),
        forall|i: int| 0 <= i < s.len() ==> s[i] < 128,
    ensures
        0 <= luhn_partial(s, j) <= luhn_partial(s, k),
    decreases k,
{
    if k > 0 {
        lemma_luhn_term_bounds(s[s.len() - k], k - 1);
        if j < k {
            lemma_luhn_partial_monotone(s, j, k - 1);
        } else {
            lemma_luhn_partial_monotone(s, k - 1, k - 1);
        }
    }
}

proof fn lemma_luhn_partial_digits_bound(s: Seq<u8>, k: int)
    requires
        0 <= k <= s.len(),
        forall|i: int| 0 <= i < s.len() ==> s[i] <= 9,
    ensures
        luhn_partial(s, k) <= 9 * k,
    decreases k,
{
    if k > 0 {
        lemma_luhn_term_bounds(s[s.len() - k], k - 1);
        lemma_luhn_partial_digits_bound(s, k - 1);
    }
}

/// The Luhn contribution of a digit: a digit in an even place from the right (0, 2, …)
/// counts as itself; a digit in an odd place is doubled and replaced by the sum of the
/// doubled value's decimal digits, which is `2e` for `e <= 4` and `2e - 9` for `e >= 5`.
pub proof fn lemma_luhn_term_is_digit_sum_of_double(e: u8, idx: int)
    requires
        e <= 9,
        idx >= 0,
    ensures
        idx % 2 == 0 ==> luhn_term(e, idx) == e,
        idx % 2 == 1 && e <= 4 ==> luhn_term(e, idx) == 2 * e,
        idx % 2 == 1 && e >= 5 ==> luhn_term(e, idx) == 2 * e - 9,
{
}

/// Whether `c` is a Unicode whitespace character.
pub fn is_whitespace(c: char) -> (r: bool)
    ensures
        r == is_unicode_whitespace(c),
{
    let u = c as u32;
    (0x09 <= u && u <= 0x0D) || u == 0x20 || u == 0x85 || u == 0xA0 || u == 0x1680 || (0x2000
        <= u && u <= 0x200A) || u == 0x2028 || u == 0x2029 || u == 0x202F || u == 0x205F || u
        == 0x3000
}

/// Checks a card number: whitespace is stripped, then every remaining character must be
/// a decimal digit, the number of digits must lie within the ISO bounds, and the result
/// is whether the digits pass the Luhn checksum.
pub fn sanitize_card_number(card_number: &str) -> (r: Result<bool, ApiError>)
    ensures
        r == card_number_verdict(card_number@),
{
    let chars = str_to_chars(card_number);
    let mut kept: Vec<char> = Vec::new();
    let mut i: usize = 0;
    while i < chars.len()
        invariant
            i <= chars@.len(),
            chars@ == card_number@,
            kept@ == without_whitespace(chars@.take(i as int)),
        decreases chars@.len() - i,
    {
        let c = chars[i];
        assert(chars@.take(i + 1).drop_last() == chars@.take(i as int));
        if !is_whitespace(c) {
            kept.push(c);
        }
        i = i + 1;
    }
    assert(chars@.take(chars@.len() as int) == chars@);
    let stripped = chars_to_string(kept.as_slice());
    let digits = validate_card_number_chars(stripped.as_str())?;
    let digits = validate_card_number_length(digits)?;
    proof {
        lemma_luhn_partial_digits_bound(digits@, digits@.len() as int);
    }
    Ok(luhn(digits.as_slice()))
}

/// Parses every character of `number` as a decimal digit.
pub fn validate_card_number_chars(number: &str) -> (r: Result<Vec<u8>, ApiError>)
    ensures
        match r {
            Ok(digits) => all_ascii_digits(number@) && digits@ == digit_values(number@),
            Err(e) => !all_ascii_digits(number@) && e == ApiError::ValidationError(
                "invalid character found in card number",
            ),
        },
{
    let chars = str_to_chars(number);
    let mut data: Vec<u8> = Vec::with_capacity(MAX_CARD_NUMBER_LENGTH);
    let mut i: usize = 0;
    while i < chars.len()
        invariant
            i <= chars@.len(),
            chars@ == number@,
            all_ascii_digits(chars@.take(i as int)),
            data@ == digit_values(chars@.take(i as int)),
        decreases chars@.len() - i,
    {
        let c = chars[i];
        if !('0' <= c && c <= '9') {
            return Err(ApiError::ValidationError("invalid character found in card number"));
        }
        let d: u8 = (c as u32 - '0' as u32) as u8;
        data.push(d);
        assert(chars@.take(i + 1) == chars@.take(i as int).push(c));
        i = i + 1;
    }
    assert(chars@.take(chars@.len() as int) == chars@);
    Ok(data)
}

/// Accepts the digits when their count lies within the ISO card-number bounds.
pub fn validate_card_number_length(number: Vec<u8>) -> (r: Result<Vec<u8>, ApiError>)
    ensures
        (MIN_CARD_NUMBER_LENGTH <= number@.len() <= MAX_CARD_NUMBER_LENGTH) ==> r == Ok::<
            Vec<u8>,
            ApiError,
        >(number),
        !(MIN_CARD_NUMBER_LENGTH <= number@.len() <= MAX_CARD_NUMBER_LENGTH) ==> r == Err::<
            Vec<u8>,
            ApiError,
        >(ApiError::ValidationError("invalid card number length")),
{
    if number.len() >= MIN_CARD_NUMBER_LENGTH && number.len() <= MAX_CARD_NUMBER_LENGTH {
        Ok(number)
    } else {
        Err(ApiError::ValidationError("invalid card number length"))
    }
}

/// The Luhn checksum: walking the digits from the right, every second digit is doubled
/// (its two decimal digits summed); the number passes when the total is a multiple of 10.
pub fn luhn(number: &[u8]) -> (r: bool)
    requires
        forall|i: int| 0 <= i < number@.len() ==> number@[i] < 128,
        luhn_sum(number@) <= u8::MAX,
    ensures
        r == (luhn_sum(number@) % 10 == 0),
{
    let n = number.len();
    let mut sum: u8 = 0;
    let mut idx: usize = 0;
    while idx < n
        invariant
            n == number@.len(),
            idx <= n,
            forall|i: int| 0 <= i < number@.len() ==> number@[i] < 128,
            luhn_sum(number@) <= u8::MAX,
            sum == luhn_partial(number@, idx as int),
        decreases n - idx,
    {
        let element = number[n - 1 - idx];
        let term: u8 = if idx % 2 == 1 {
            (element * 2) / 10 + (element * 2) % 10
        } else {
            element
        };
        proof {
            lemma_luhn_partial_monotone(number@, idx + 1, n as int);
            assert(luhn_partial(number@, idx + 1) == luhn_partial(number@, idx as int)
                + luhn_term(element, idx as int));
        }
        sum = sum + term;
        idx = idx + 1;
    }
    sum % 10 == 0
}

} // verus!
