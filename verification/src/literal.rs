//! The grammars of the literals that a run of characters can spell: integers,
//! floats and booleans.

use vstd::prelude::*;

verus! {

/// Whether `c` is one of the ten ASCII digits.
pub open spec fn is_digit(c: char) -> bool {
    '0' <= c && c <= '9'
}

/// Whether `c` is a sign character.
pub open spec fn is_sign(c: char) -> bool {
    c == '+' || c == '-'
}

/// The number that the ASCII digit `c` stands for.
pub open spec fn digit_value(c: char) -> int {
    c as int - '0' as int
}

/// The number that a sequence of digits spells in base ten.
pub open spec fn digits_value(digits: Seq<char>) -> int
    decreases digits.len(),
{
    if digits.len() == 0 {
        0
    } else {
        digits_value(digits.drop_last()) * 10 + digit_value(digits.last())
    }
}

/// Whether every character of `s` is a digit.
pub open spec fn all_digits(s: Seq<char>) -> bool {
    forall|i: int| 0 <= i < s.len() ==> is_digit(#[trigger] s[i])
}

/// What is left of `text` after its sign, if it starts with one.
pub open spec fn unsigned_part(text: Seq<char>) -> Seq<char> {
    if text.len() > 0 && is_sign(text[0]) {
        text.skip(1)
    } else {
        text
    }
}

/// Whether `text` is an optional sign followed by one or more digits and
/// nothing else.
pub open spec fn is_signed_digits(text: Seq<char>) -> bool {
    unsigned_part(text).len() > 0 && all_digits(unsigned_part(text))
}

/// The number that an optional sign followed by digits spells.
pub open spec fn signed_value(text: Seq<char>) -> int {
    if text.len() > 0 && text[0] == '-' {
        -digits_value(unsigned_part(text))
    } else {
        digits_value(unsigned_part(text))
    }
}

/// The integer that `text` spells, if it is an integer literal: an optional
/// sign, then one or more digits and nothing else, with a value in the range
/// of `i64`.
pub open spec fn int_literal(text: Seq<char>) -> Option<i64> {
    if is_signed_digits(text) && i64::MIN <= signed_value(text) <= i64::MAX {
        Some(signed_value(text) as i64)
    } else {
        None
    }
}

/// The first index at or after `from` at which `s` holds no digit.
pub open spec fn digits_end(s: Seq<char>, from: int) -> int
    decreases s.len() - from,
{
    if 0 <= from < s.len() && is_digit(s[from]) {
        digits_end(s, from + 1)
    } else {
        from
    }
}

/// Whether `s` from index `at` to its end is an exponent: `e` or `E`, an
/// optional sign, then one or more digits.
pub open spec fn is_exponent_at(s: Seq<char>, at: int) -> bool {
    &&& 0 <= at
    &&& at + 1 < s.len()
    &&& (s[at] == 'e' || s[at] == 'E')
    &&& {
        let start = if is_sign(s[at + 1]) {
            at + 2
        } else {
            at + 1
        };
        start < s.len() && digits_end(s, start) == s.len()
    }
}

/// Whether `s` from index `from` to its end is a decimal number: digits with
/// at most one point among them, at least one digit in all, then optionally an
/// exponent.
pub open spec fn is_decimal_at(s: Seq<char>, from: int) -> bool {
    let whole_end = digits_end(s, from);
    let has_point = whole_end < s.len() && s[whole_end] == '.';
    let mantissa_end = if has_point {
        digits_end(s, whole_end + 1)
    } else {
        whole_end
    };
    let digit_count = if has_point {
        mantissa_end - from - 1
    } else {
        whole_end - from
    };
    digit_count >= 1 && (mantissa_end == s.len() || is_exponent_at(s, mantissa_end))
}

/// Whether `c` is the letter whose lower-case form is `lower` and whose
/// upper-case form is `upper`.
pub open spec fn is_letter(c: char, lower: char, upper: char) -> bool {
    c == lower || c == upper
}

/// Whether `s` from index `from` to its end spells `inf`, `infinity` or `nan`,
/// in any mix of upper and lower case.
pub open spec fn is_special_at(s: Seq<char>, from: int) -> bool {
    let inf = is_letter(s[from], 'i', 'I') && is_letter(s[from + 1], 'n', 'N') && is_letter(
        s[from + 2],
        'f',
        'F',
    );
    let nan = is_letter(s[from], 'n', 'N') && is_letter(s[from + 1], 'a', 'A') && is_letter(
        s[from + 2],
        'n',
        'N',
    );
    let inity = is_letter(s[from + 3], 'i', 'I') && is_letter(s[from + 4], 'n', 'N')
        && is_letter(s[from + 5], 'i', 'I') && is_letter(s[from + 6], 't', 'T') && is_letter(
        s[from + 7],
        'y',
        'Y',
    );
    if s.len() - from == 3 {
        inf || nan
    } else if s.len() - from == 8 {
        inf && inity
    } else {
        false
    }
}

/// Whether `text` is a float literal: an optional sign, then either a decimal
/// number or one of the words `inf`, `infinity` and `nan`.
pub open spec fn is_float_literal(text: Seq<char>) -> bool {
    let from: int = if text.len() > 0 && is_sign(text[0]) {
        1
    } else {
        0
    };
    is_decimal_at(text, from) || is_special_at(text, from)
}

/// The boolean that `text` spells, if it is exactly `true` or `false`.
pub open spec fn bool_literal(text: Seq<char>) -> Option<bool> {
    if text == seq!['t', 'r', 'u', 'e'] {
        Some(true)
    } else if text == seq!['f', 'a', 'l', 's', 'e'] {
        Some(false)
    } else {
        None
    }
}

/// Where only digits stand from `from` to the end of `s`, the digits that
/// start at `from` end with `s`.
pub proof fn lemma_digits_to_end(s: Seq<char>, from: int)
    requires
        0 <= from <= s.len(),
        forall|i: int| from <= i < s.len() ==> is_digit(#[trigger] s[i]),
    ensures
        digits_end(s, from) == s.len(),
    decreases s.len() - from,
{
    if from < s.len() {
        lemma_digits_to_end(s, from + 1);
    }
}

/// Every integer literal is a float literal too: a run of digits is an
/// integer only because integers are tried first, and one too long for an
/// integer is a float.
pub proof fn lemma_signed_digits_are_float(text: Seq<char>)
    requires
        is_signed_digits(text),
    ensures
        is_float_literal(text),
{
    let from: int = if text.len() > 0 && is_sign(text[0]) {
        1
    } else {
        0
    };
    let digits = unsigned_part(text);
    assert(digits =~= text.skip(from));
    assert forall|i: int| from <= i < text.len() implies is_digit(#[trigger] text[i]) by {
        assert(text[i] == digits[i - from]);
    }
    lemma_digits_to_end(text, from);
}

/// Parses an integer literal with `str::parse::<i64>`. As std documents it, the
/// call succeeds exactly on an optional sign followed by one or more ASCII
/// digits whose value fits in `i64`, and then returns that value.
#[verifier::external_body]
pub(crate) fn parse_int(text: &str) -> (number: Option<i64>)
    ensures
        number == int_literal(text@),
{
    match text.parse::<i64>() {
        Ok(value) => Some(value),
        Err(_) => None,
    }
}

/// The characters of `text`, in order.
pub fn chars_of(text: &str) -> (chars: Vec<char>)
    ensures
        chars@ == text@,
{
    let mut chars: Vec<char> = Vec::new();
    for c in it: text.chars()
        invariant
            it.seq() == text@,
            chars@ == it.seq().take(it.index()),
    {
        chars.push(c);
    }
    chars
}

/// Skips the digits of `s` that start at `from`.
fn scan_digits(s: &Vec<char>, from: usize) -> (end: usize)
    requires
        from <= s.len(),
    ensures
        end == digits_end(s@, from as int),
        from <= end <= s.len(),
{
    let mut end: usize = from;
    while end < s.len() && '0' <= s[end] && s[end] <= '9'
        invariant
            from <= end <= s.len(),
            digits_end(s@, from as int) == digits_end(s@, end as int),
        decreases s.len() - end,
    {
        end += 1;
    }
    end
}

/// Tests whether the rest of `s` from `at` is an exponent.
fn scan_exponent(s: &Vec<char>, at: usize) -> (found: bool)
    requires
        at <= s.len(),
    ensures
        found == is_exponent_at(s@, at as int),
{
    let len: usize = s.len();
    if len - at < 2 {
        return false;
    }
    if s[at] != 'e' && s[at] != 'E' {
        return false;
    }
    let start: usize = if s[at + 1] == '+' || s[at + 1] == '-' {
        at + 2
    } else {
        at + 1
    };
    if start >= len {
        return false;
    }
    scan_digits(s, start) == len
}

/// Tests whether the rest of `s` from `from` is a decimal number.
fn scan_decimal(s: &Vec<char>, from: usize) -> (found: bool)
    requires
        from <= s.len(),
    ensures
        found == is_decimal_at(s@, from as int),
{
    let len: usize = s.len();
    let whole_end: usize = scan_digits(s, from);
    let has_point: bool = whole_end < len && s[whole_end] == '.';
    let mantissa_end: usize = if has_point {
        scan_digits(s, whole_end + 1)
    } else {
        whole_end
    };
    let digit_count: usize = if has_point {
        mantissa_end - from - 1
    } else {
        whole_end - from
    };
    digit_count >= 1 && (mantissa_end == len || scan_exponent(s, mantissa_end))
}

/// Tests one character against a letter in both cases.
fn letter(c: char, lower: char, upper: char) -> (same: bool)
    ensures
        same == is_letter(c, lower, upper),
{
    c == lower || c == upper
}

/// Tests whether the rest of `s` from `from` is one of the special words.
fn scan_special(s: &Vec<char>, from: usize) -> (found: bool)
    requires
        from <= s.len(),
    ensures
        found == is_special_at(s@, from as int),
{
    let rest: usize = s.len() - from;
    if rest == 3 {
        (letter(s[from], 'i', 'I') && letter(s[from + 1], 'n', 'N') && letter(s[from + 2], 'f', 'F'))
            || (letter(s[from], 'n', 'N') && letter(s[from + 1], 'a', 'A') && letter(
            s[from + 2],
            'n',
            'N',
        ))
    } else if rest == 8 {
        letter(s[from], 'i', 'I') && letter(s[from + 1], 'n', 'N') && letter(s[from + 2], 'f', 'F')
            && letter(s[from + 3], 'i', 'I') && letter(s[from + 4], 'n', 'N') && letter(
            s[from + 5],
            'i',
            'I',
        ) && letter(s[from + 6], 't', 'T') && letter(s[from + 7], 'y', 'Y')
    } else {
        false
    }
}

/// Tests whether `text` is a float literal.
pub fn is_float(text: &str) -> (found: bool)
    ensures
        found == is_float_literal(text@),
{
    let chars = chars_of(text);
    let from: usize = if chars.len() > 0 && (chars[0] == '+' || chars[0] == '-') {
        1
    } else {
        0
    };
    scan_decimal(&chars, from) || scan_special(&chars, from)
}

/// Reads `text` as a boolean literal.
pub fn parse_bool(text: &str) -> (flag: Option<bool>)
    ensures
        flag == bool_literal(text@),
{
    let chars = chars_of(text);
    if chars.len() == 4 && chars[0] == 't' && chars[1] == 'r' && chars[2] == 'u' && chars[3]
        == 'e' {
        assert(chars@ =~= seq!['t', 'r', 'u', 'e']);
        Some(true)
    } else if chars.len() == 5 && chars[0] == 'f' && chars[1] == 'a' && chars[2] == 'l'
        && chars[3] == 's' && chars[4] == 'e' {
        assert(chars@ =~= seq!['f', 'a', 'l', 's', 'e']);
        Some(false)
    } else {
        None
    }
}

} // verus!
