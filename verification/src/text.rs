//! Text operations that the caches and the lookup tables share.
use vstd::prelude::*;
use vstd::string::*;
use vstd::utf8::{encode_utf8, encode_utf8_decode_utf8};

verus! {

/// The lowercase form of a text, as Unicode defines it.
pub uninterp spec fn lowercase(s: Seq<char>) -> Seq<char>;

/// A text without its leading and trailing white space, as Unicode defines
/// white space.
pub uninterp spec fn trimmed(s: Seq<char>) -> Seq<char>;

/// `str::to_lowercase`. Trusted: the result is the lowercase form of the
/// argument and depends on nothing else.
#[verifier::external_body]
pub(crate) fn to_lowercase(s: &str) -> (r: String)
    ensures
        r@ == lowercase(s@),
{
    s.to_lowercase()
}

/// `str::trim`. Trusted: the result is the argument without leading and
/// trailing white space and depends on nothing else.
#[verifier::external_body]
pub(crate) fn trim(s: &str) -> (r: &str)
    ensures
        r@ == trimmed(s@),
{
    s.trim()
}

/// Whether two string slices hold the same characters, decided on their
/// UTF-8 forms, which are equal exactly when the texts are.
pub fn same_text(a: &str, b: &str) -> (r: bool)
    ensures
        r == (a@ == b@),
{
    let left = a.as_bytes();
    let right = b.as_bytes();
    proof {
        encode_utf8_decode_utf8(a@);
        encode_utf8_decode_utf8(b@);
    }
    if left.len() != right.len() {
        return false;
    }
    let mut i: usize = 0;
    while i < left.len()
        invariant
            i <= left@.len(),
            left@.len() == right@.len(),
            left@ == encode_utf8(a@),
            right@ == encode_utf8(b@),
            forall|k: int| 0 <= k < i ==> left@[k] == right@[k],
        decreases left@.len() - i,
    {
        if left[i] != right[i] {
            return false;
        }
        i = i + 1;
    }
    assert(left@ =~= right@);
    true
}

/// Whether `pattern` occurs in `text` as a run of neighbouring characters.
pub open spec fn contains_text(text: Seq<char>, pattern: Seq<char>) -> bool {
    exists|i: int|
        0 <= i && i + pattern.len() <= text.len() && #[trigger] text.subrange(
            i,
            i + pattern.len(),
        ) == pattern
}

/// `str::contains` with a string pattern. Trusted: the answer is whether the
/// pattern occurs somewhere in the text.
#[verifier::external_body]
pub(crate) fn contains(text: &str, pattern: &str) -> (r: bool)
    ensures
        r == contains_text(text@, pattern@),
{
    text.contains(pattern)
}

/// The form under which a city is filed in a cache: trimmed, then lowercased.
pub open spec fn normalized(city: Seq<char>) -> Seq<char> {
    lowercase(trimmed(city))
}

/// Brings a city name into the form under which the caches file it, so that
/// spellings that differ in case or in surrounding blanks share one entry.
pub fn normalize_key(city: &str) -> (key: String)
    ensures
        key@ == normalized(city@),
{
    to_lowercase(trim(city))
}

/// The value of a decimal digit.
pub open spec fn digit_value(c: char) -> Option<nat> {
    if '0' <= c <= '9' {
        Some((c as int - '0' as int) as nat)
    } else {
        None
    }
}

/// The number that a run of decimal digits writes; `None` where a character
/// of the run is no digit.
pub open spec fn digits_value(digits: Seq<char>) -> Option<nat>
    decreases digits.len(),
{
    if digits.len() == 0 {
        Some(0)
    } else {
        match (digits_value(digits.drop_last()), digit_value(digits.last())) {
            (Some(value), Some(digit)) => Some(value * 10 + digit),
            _ => None,
        }
    }
}

/// The digits of a numeral: the text without a leading plus sign.
pub open spec fn numeral_digits(text: Seq<char>) -> Seq<char> {
    if text.len() > 0 && text[0] == '+' {
        text.subrange(1, text.len() as int)
    } else {
        text
    }
}

/// The number that `text` writes, if it writes one that is at most `max`:
/// an optional plus sign followed by one or more decimal digits.
pub open spec fn unsigned_value(text: Seq<char>, max: nat) -> Option<nat> {
    let digits = numeral_digits(text);
    if digits.len() == 0 {
        None
    } else {
        match digits_value(digits) {
            Some(value) => if value <= max {
                Some(value)
            } else {
                None
            },
            None => None,
        }
    }
}

proof fn lemma_digits_step(digits: Seq<char>, k: int)
    requires
        0 <= k < digits.len(),
    ensures
        digits_value(digits.take(k + 1)) == match (
            digits_value(digits.take(k)),
            digit_value(digits[k]),
        ) {
            (Some(value), Some(digit)) => Some(value * 10 + digit),
            _ => None,
        },
{
    assert(digits.take(k + 1).drop_last() =~= digits.take(k));
}

/// A run of digits writes no smaller a number than any of its beginnings,
/// and writes none where a beginning writes none.
proof fn lemma_digits_grow(digits: Seq<char>, k: int)
    requires
        0 <= k <= digits.len(),
    ensures
        digits_value(digits.take(k)) is None ==> digits_value(digits) is None,
        digits_value(digits) is Some ==> digits_value(digits.take(k))->Some_0 <= digits_value(
            digits,
        )->Some_0,
    decreases digits.len() - k,
{
    if k == digits.len() {
        assert(digits.take(k) =~= digits);
    } else {
        lemma_digits_step(digits, k);
        lemma_digits_grow(digits, k + 1);
    }
}

/// Reads an unsigned decimal numeral of at most `max`.
///
/// The text is a numeral when it is made of one or more decimal digits, with
/// or without a plus sign before them; blanks, a minus sign or any other
/// character make it none.
pub fn parse_unsigned(text: &str, max: u64) -> (r: Option<u64>)
    ensures
        r is Some <==> unsigned_value(text@, max as nat) is Some,
        r is Some ==> r->Some_0 as nat == unsigned_value(text@, max as nat)->Some_0,
{
    let n = text.unicode_len();
    if n == 0 {
        return None;
    }
    let start: usize = if text.get_char(0) == '+' {
        1
    } else {
        0
    };
    if start == n {
        return None;
    }
    let ghost digits = numeral_digits(text@);
    assert(digits =~= text@.subrange(start as int, n as int));
    let mut acc: u64 = 0;
    let mut i: usize = start;
    assert(digits.take(0) =~= Seq::<char>::empty());
    while i < n
        invariant
            start <= i <= n,
            n == text@.len(),
            start <= 1,
            digits == text@.subrange(start as int, n as int),
            digits == numeral_digits(text@),
            digits_value(digits.take(i - start)) == Some(acc as nat),
            acc <= max,
        decreases n - i,
    {
        let c = text.get_char(i);
        proof {
            lemma_digits_step(digits, i - start);
            lemma_digits_grow(digits, i - start + 1);
        }
        if !('0' <= c && c <= '9') {
            return None;
        }
        let digit: u64 = (c as u32 - '0' as u32) as u64;
        let next: u128 = acc as u128 * 10 + digit as u128;
        if next > max as u128 {
            return None;
        }
        acc = next as u64;
        i = i + 1;
    }
    assert(digits.take(n - start) =~= digits);
    Some(acc)
}

/// The number that a setting stands for: the one it writes, if it is set
/// and writes one of at most `max`, and `default` otherwise.
pub open spec fn number_setting(value: Option<String>, max: nat, default: nat) -> nat {
    match value {
        Some(text) => match unsigned_value(text@, max) {
            Some(number) => number,
            None => default,
        },
        None => default,
    }
}

/// The text that a setting stands for: its own, if it is set, and `default`
/// otherwise.
pub open spec fn text_setting(value: Option<String>, default: Seq<char>) -> Seq<char> {
    match value {
        Some(text) => text@,
        None => default,
    }
}

/// Reads a numeric setting, falling back to `default` where it is unset or
/// is no numeral of at most `max`.
pub fn number_or(value: &Option<String>, max: u64, default: u64) -> (r: u64)
    requires
        default <= max,
    ensures
        r == number_setting(*value, max as nat, default as nat),
        r <= max,
{
    match value {
        Some(text) => match parse_unsigned(text.as_str(), max) {
            Some(number) => number,
            None => default,
        },
        None => default,
    }
}

/// Reads a textual setting, falling back to `default` where it is unset.
pub fn text_or(value: Option<String>, default: &str) -> (r: String)
    ensures
        r@ == text_setting(value, default@),
{
    match value {
        Some(text) => text,
        None => String::from_str(default),
    }
}

} // verus!
