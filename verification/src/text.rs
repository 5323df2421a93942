//! Text that the server writes: decimal numbers, JSON strings, UUIDs.

use vstd::prelude::*;

verus! {

/// The character of a decimal digit.
pub open spec fn spec_digit_char(d: nat) -> char {
    (48 + d) as char
}

/// The decimal numeral of `n`, without leading zeros.
pub open spec fn spec_decimal(n: nat) -> Seq<char>
    decreases n,
{
    if n < 10 {
        seq![spec_digit_char(n)]
    } else {
        spec_decimal(n / 10).push(spec_digit_char(n % 10))
    }
}

/// The decimal numeral of `v`, with a minus sign where it is negative.
pub open spec fn spec_signed_decimal(v: int) -> Seq<char> {
    if v < 0 {
        seq!['-'] + spec_decimal((-v) as nat)
    } else {
        spec_decimal(v as nat)
    }
}

/// The character of a hexadecimal digit, in lower case.
pub open spec fn spec_hex_char(d: nat) -> char {
    if d < 10 {
        (48 + d) as char
    } else {
        (87 + d) as char
    }
}

/// How a character stands inside a JSON string literal: the double quote
/// and the backslash behind a backslash, backspace, tab, line feed, form
/// feed and carriage return under their letters, any other character below
/// the space as four hexadecimal digits, and every other character as it
/// is.
pub open spec fn spec_json_escape(c: char) -> Seq<char> {
    if c == '"' {
        seq!['\\', '"']
    } else if c == '\\' {
        seq!['\\', '\\']
    } else if c == '\u{08}' {
        seq!['\\', 'b']
    } else if c == '\t' {
        seq!['\\', 't']
    } else if c == '\n' {
        seq!['\\', 'n']
    } else if c == '\u{0c}' {
        seq!['\\', 'f']
    } else if c == '\r' {
        seq!['\\', 'r']
    } else if (c as nat) < 0x20 {
        seq![
            '\\',
            'u',
            '0',
            '0',
            spec_hex_char((c as nat) / 16),
            spec_hex_char((c as nat) % 16),
        ]
    } else {
        seq![c]
    }
}

/// The characters of `s`, each as it stands inside a JSON string literal.
pub open spec fn spec_json_escaped(s: Seq<char>) -> Seq<char>
    decreases s.len(),
{
    if s.len() == 0 {
        Seq::empty()
    } else {
        spec_json_escaped(s.drop_last()) + spec_json_escape(s.last())
    }
}

/// The JSON string literal for `s`: its characters, escaped, between double
/// quotes.
pub open spec fn spec_json_quote(s: Seq<char>) -> Seq<char> {
    seq!['"'] + spec_json_escaped(s) + seq!['"']
}

/// Sixteen to the power of `k`.
pub open spec fn spec_pow16(k: nat) -> nat
    decreases k,
{
    if k == 0 {
        1
    } else {
        16 * spec_pow16((k - 1) as nat)
    }
}

/// The character at place `i` of the hyphenated form of a UUID: a hyphen
/// after the 8th, 12th, 16th and 20th digit, and the 32 hexadecimal digits
/// of the value, highest first, in between.
pub open spec fn spec_uuid_char(v: u128, i: int) -> char {
    if i == 8 || i == 13 || i == 18 || i == 23 {
        '-'
    } else {
        let k = i - (if i > 23 {
            4int
        } else if i > 18 {
            3int
        } else if i > 13 {
            2int
        } else if i > 8 {
            1int
        } else {
            0int
        });
        spec_hex_char(((v as nat) / spec_pow16((31 - k) as nat)) % 16)
    }
}

/// The hyphenated lower-case form of a UUID, 36 characters long.
pub open spec fn spec_uuid_text(v: u128) -> Seq<char> {
    Seq::new(36, |i: int| spec_uuid_char(v, i))
}

/// `str::chars` of std, collected: the characters of `s`.
#[verifier::external_body]
pub(crate) fn str_chars(s: &str) -> (chars: Vec<char>)
    ensures
        chars@ == s@,
{
    s.chars().collect()
}

/// `String::from_iter` of std over the characters of a slice: the string
/// that they spell.
#[verifier::external_body]
pub(crate) fn string_from_chars(chars: &[char]) -> (text: String)
    ensures
        text@ == chars@,
{
    chars.iter().collect()
}

/// `serde_json::Value::String` written out by its `Display`: the JSON
/// string literal for `s`, in which `serde_json` escapes what
/// `spec_json_escape` says and nothing else.
#[verifier::external_body]
pub(crate) fn json_quote(s: &str) -> (literal: String)
    ensures
        literal@ == spec_json_quote(s@),
{
    serde_json::Value::String(s.to_owned()).to_string()
}

/// `uuid::Uuid::from_u128` written out by its `Display`: the hyphenated
/// lower-case form.
#[verifier::external_body]
pub(crate) fn uuid_text(v: u128) -> (text: String)
    ensures
        text@ == spec_uuid_text(v),
{
    uuid::Uuid::from_u128(v).to_string()
}

/// The decimal digits of `n`, highest first.
fn decimal_digits(n: u128) -> (digits: Vec<char>)
    ensures
        digits@ == spec_decimal(n as nat),
{
    let mut digits: Vec<char> = Vec::new();
    let mut rem: u128 = n;
    assert(spec_decimal(n as nat) =~= spec_decimal(rem as nat) + digits@);
    while rem >= 10
        invariant
            spec_decimal(n as nat) == spec_decimal(rem as nat) + digits@,
        decreases rem,
    {
        let ghost before = digits@;
        let d: u8 = (rem % 10) as u8;
        digits.insert(0, (48 + d) as char);
        assert(spec_decimal(rem as nat) + before =~= spec_decimal((rem / 10) as nat) + digits@);
        rem = rem / 10;
    }
    let ghost before = digits@;
    digits.insert(0, (48 + rem as u8) as char);
    assert(spec_decimal(rem as nat) + before =~= digits@);
    digits
}

/// The decimal numeral of `n`.
pub fn decimal_unsigned(n: u128) -> (text: String)
    ensures
        text@ == spec_decimal(n as nat),
{
    let digits = decimal_digits(n);
    string_from_chars(digits.as_slice())
}

/// The decimal numeral of `v`.
pub fn decimal(v: i64) -> (text: String)
    ensures
        text@ == spec_signed_decimal(v as int),
{
    if v < 0 {
        let mut digits = decimal_digits((-(v as i128)) as u128);
        let ghost before = digits@;
        digits.insert(0, '-');
        assert(digits@ =~= seq!['-'] + before);
        string_from_chars(digits.as_slice())
    } else {
        decimal_unsigned(v as u128)
    }
}

/// `first` followed by `second`.
pub fn join(first: String, second: &str) -> (text: String)
    ensures
        text@ == first@ + second@,
{
    let mut chars = str_chars(first.as_str());
    let mut tail = str_chars(second);
    chars.append(&mut tail);
    string_from_chars(chars.as_slice())
}

} // verus!
