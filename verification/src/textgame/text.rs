//! The pieces of text the dialogue reads and writes: answers, numbers and
//! rooms.

use std::num::ParseIntError;
use vstd::prelude::*;
use vstd::string::StrSliceExecFns;

verus! {

broadcast use vstd::string::group_string_axioms;

#[verifier::external_type_specification]
#[verifier::external_body]
pub struct ExParseIntError(ParseIntError);

/// What `str::to_uppercase` makes of a text: Unicode's upper case, which
/// takes pages of tables to state.
pub uninterp spec fn uppercase(s: Seq<char>) -> Seq<char>;

/// A character of Unicode's `White_Space` property: tab, line feed, line
/// and form feed, carriage return, space, next line, no-break space, ogham
/// space mark, the spaces from en quad to hair space, line and paragraph
/// separators, narrow no-break space, medium mathematical space and
/// ideographic space.
pub open spec fn is_white_space(c: char) -> bool {
    let u = c as u32;
    ||| 0x09 <= u <= 0x0D
    ||| u == 0x20
    ||| u == 0x85
    ||| u == 0xA0
    ||| u == 0x1680
    ||| 0x2000 <= u <= 0x200A
    ||| u == 0x2028
    ||| u == 0x2029
    ||| u == 0x202F
    ||| u == 0x205F
    ||| u == 0x3000
}

/// The text without its leading white space.
pub open spec fn trimmed_start(s: Seq<char>) -> Seq<char>
    decreases s.len(),
{
    if s.len() > 0 && is_white_space(s[0]) {
        trimmed_start(s.drop_first())
    } else {
        s
    }
}

/// The text without its trailing white space.
pub open spec fn trimmed_end(s: Seq<char>) -> Seq<char>
    decreases s.len(),
{
    if s.len() > 0 && is_white_space(s.last()) {
        trimmed_end(s.drop_last())
    } else {
        s
    }
}

/// What `str::trim` makes of a text: the text without leading and trailing
/// white space.
pub open spec fn trimmed(s: Seq<char>) -> Seq<char> {
    trimmed_end(trimmed_start(s))
}

/// `str::to_uppercase`: its result is named `uppercase` of the input.
#[verifier::external_body]
fn str_to_uppercase(s: &str) -> (upper: String)
    ensures
        upper@ == uppercase(s@),
{
    s.to_uppercase()
}

/// `str::trim`: documented to remove leading and trailing white space, as
/// Unicode's `White_Space` property defines it.
#[verifier::external_body]
fn str_trim(s: &str) -> (t: &str)
    ensures
        t@ == trimmed(s@),
{
    s.trim()
}

/// The value of a nonempty run of decimal digits.
pub open spec fn digits_value(s: Seq<char>) -> int
    decreases s.len(),
{
    if s.len() == 0 {
        0
    } else {
        digits_value(s.drop_last()) * 10 + (s.last() as int - '0' as int)
    }
}

pub open spec fn all_digits(s: Seq<char>) -> bool {
    forall|i: int| 0 <= i < s.len() ==> '0' <= #[trigger] s[i] <= '9'
}

/// The number a text denotes as `u8::from_str` documents it: an optional
/// `+` followed by decimal digits only, with a value that fits in a `u8`.
pub open spec fn decimal_u8(s: Seq<char>) -> Option<u8> {
    let digits = if s.len() > 0 && s[0] == '+' { s.drop_first() } else { s };
    if digits.len() > 0 && all_digits(digits) && digits_value(digits) <= 255 {
        Some(digits_value(digits) as u8)
    } else {
        None
    }
}

/// `str::parse::<u8>`: documented to accept exactly an optional `+` and
/// decimal digits of a value that fits; which error it reports otherwise is
/// not stated here.
#[verifier::external_body]
fn str_parse_u8(s: &str) -> (r: Result<u8, ParseIntError>)
    ensures
        r is Ok <==> decimal_u8(s@) is Some,
        r matches Ok(v) ==> decimal_u8(s@) == Some(v),
{
    s.parse::<u8>()
}

/// The message of the error that `str::parse::<u8>` gives for the text `s`:
/// std's words, which depend on the text alone.
pub uninterp spec fn parse_u8_error_text(s: Seq<char>) -> Seq<char>;

/// `str::parse::<u8>` on a text that it refuses, and the message of the
/// error it gives (`ParseIntError::to_string`): the result is named
/// `parse_u8_error_text` of the text.
#[verifier::external_body]
fn parse_u8_error_message(s: &str) -> (t: String)
    requires
        decimal_u8(s@) is None,
    ensures
        t@ == parse_u8_error_text(s@),
{
    match s.parse::<u8>() {
        Ok(_) => String::new(),
        Err(e) => e.to_string(),
    }
}

/// An answer as the dialogue reads it: upper-cased, then trimmed.
pub open spec fn answer(text: Seq<char>) -> Seq<char> {
    trimmed(uppercase(text))
}

/// A number as the dialogue reads it: trimmed, then parsed.
pub open spec fn number(text: Seq<char>) -> Option<u8> {
    decimal_u8(trimmed(text))
}

/// Reads a number from a line: the line trimmed, then parsed.
pub fn parse_number(input_text: &str) -> (r: Result<u8, ParseIntError>)
    ensures
        r is Ok <==> number(input_text@) is Some,
        r matches Ok(v) ==> number(input_text@) == Some(v),
{
    str_parse_u8(str_trim(input_text))
}

/// The message written for a line that is not a number: the message of the
/// parse error for the line trimmed.
pub fn number_error_text(input_text: &str) -> (t: String)
    requires
        number(input_text@) is None,
    ensures
        t@ == parse_u8_error_text(trimmed(input_text@)),
{
    parse_u8_error_message(str_trim(input_text))
}

/// Reads an answer: the text upper-cased and trimmed.
pub fn read_answer(text: &String) -> (a: String)
    ensures
        a@ == answer(text@),
{
    let upper = str_to_uppercase(text.as_str());
    let t = str_trim(upper.as_str());
    t.to_string()
}

/// `text` is the single character `c`.
pub fn is_char(text: &String, c: char) -> (b: bool)
    ensures
        b == (text@ == seq![c]),
{
    let s = text.as_str();
    if s.unicode_len() == 1 {
        let first = s.get_char(0);
        assert(first == c ==> s@ =~= seq![c]);
        first == c
    } else {
        false
    }
}

/// The digit `d` as text.
pub open spec fn digit_text(d: int) -> Seq<char> {
    if d == 0 {
        "0"@
    } else if d == 1 {
        "1"@
    } else if d == 2 {
        "2"@
    } else if d == 3 {
        "3"@
    } else if d == 4 {
        "4"@
    } else if d == 5 {
        "5"@
    } else if d == 6 {
        "6"@
    } else if d == 7 {
        "7"@
    } else if d == 8 {
        "8"@
    } else {
        "9"@
    }
}

/// A number in decimal, without leading zeros.
pub open spec fn decimal(n: nat) -> Seq<char>
    decreases n,
{
    if n < 10 {
        digit_text(n as int)
    } else {
        decimal(n / 10) + digit_text((n % 10) as int)
    }
}

fn digit_str(d: u8) -> (s: &'static str)
    requires
        d < 10,
    ensures
        s@ == digit_text(d as int),
{
    match d {
        0 => "0",
        1 => "1",
        2 => "2",
        3 => "3",
        4 => "4",
        5 => "5",
        6 => "6",
        7 => "7",
        8 => "8",
        _ => "9",
    }
}

/// A number as the dialogue writes it.
pub fn u8_text(n: u8) -> (s: String)
    ensures
        s@ == decimal(n as nat),
{
    if n < 10 {
        let s = digit_str(n).to_string();
        assert(s@ == digit_text(n as int));
        s
    } else if n < 100 {
        let mut s = digit_str(n / 10).to_string();
        s.append(digit_str(n % 10));
        assert(decimal((n / 10) as nat) == digit_text((n / 10) as int));
        s
    } else {
        let mut s = digit_str(n / 100).to_string();
        s.append(digit_str((n / 10) % 10));
        s.append(digit_str(n % 10));
        assert((n / 10) / 10 == n / 100);
        assert(decimal((n / 100) as nat) == digit_text((n / 100) as int));
        assert(decimal((n / 10) as nat) == decimal((n / 100) as nat) + digit_text(((n / 10) % 10) as int));
        assert(decimal(n as nat) == decimal((n / 10) as nat) + digit_text((n % 10) as int));
        s
    }
}

/// `needle` occurs in `hay` at `i`.
pub open spec fn occurs_at(hay: Seq<char>, needle: Seq<char>, i: int) -> bool {
    0 <= i && i + needle.len() <= hay.len() && hay.subrange(i, i + needle.len()) == needle
}

/// `needle` occurs somewhere in `hay`.
pub open spec fn has_infix(hay: Seq<char>, needle: Seq<char>) -> bool {
    exists|i: int| occurs_at(hay, needle, i)
}

/// Whether `needle` occurs in `hay`.
pub fn contains_text(hay: &str, needle: &str) -> (b: bool)
    ensures
        b == has_infix(hay@, needle@),
{
    let n = hay.unicode_len();
    let m = needle.unicode_len();
    if m > n {
        assert forall|i: int| !occurs_at(hay@, needle@, i) by {}
        return false;
    }
    if m == 0 {
        assert(hay@.subrange(0, 0) =~= needle@);
        assert(occurs_at(hay@, needle@, 0));
        return true;
    }
    let mut i: usize = 0;
    while m <= n - i
        invariant
            n == hay@.len(),
            m == needle@.len(),
            1 <= m <= n,
            i <= n,
            forall|k: int| 0 <= k < i ==> !occurs_at(hay@, needle@, k),
        decreases n - i,
    {
        let mut j: usize = 0;
        let mut same = true;
        while j < m && same
            invariant
                n == hay@.len(),
                m == needle@.len(),
                i + m <= n,
                j <= m,
                same ==> forall|k: int| 0 <= k < j ==> hay@[i + k] == needle@[k],
                !same ==> !occurs_at(hay@, needle@, i as int),
            decreases m - j,
        {
            let a = hay.get_char(i + j);
            let b = needle.get_char(j);
            if a != b {
                same = false;
                assert(hay@.subrange(i as int, i + m)[j as int] == a);
            }
            j = j + 1;
        }
        if same {
            assert(hay@.subrange(i as int, i + m) =~= needle@);
            assert(occurs_at(hay@, needle@, i as int));
            return true;
        }
        i = i + 1;
    }
    assert forall|k: int| !occurs_at(hay@, needle@, k) by {
        if 0 <= k && k + m <= n {
            assert(k < i);
        }
    }
    false
}

} // verus!
