//! Decimal numbers as text.
//!
//! Two shapes of text matter to the calculator. A *draft* is a number while
//! it is being typed: an optional leading minus sign, then digits with at most
//! one decimal point among them, in any state of completion (`"12."`, `"-"`).
//! A *numeral* is a finished number: a draft that has a digit on either side of
//! its decimal point, if it has one (`"12.5"`, `"-3"`).
//!
//! A *rendering* is what the arithmetic hands back for a value: a numeral, or
//! one of three words for a value that is not finite. Such a word is kept in
//! the history, but never shown as a result and never typed into: the result
//! line shows the error marker for it, and an operand starts from `"0"`.

use vstd::prelude::*;
use vstd::string::*;

verus! {

/// The ASCII code of `.`.
pub(crate) const DOT: u8 = 46;

/// The ASCII code of `-`.
pub(crate) const MINUS: u8 = 45;

/// The ASCII code of `0`; the other digits follow it.
pub(crate) const DIGIT_0: u8 = 48;

/// The ASCII code of `9`.
pub(crate) const DIGIT_9: u8 = 57;

/// The ASCII code of `N`.
const UPPER_N: u8 = 78;

/// The ASCII code of `a`.
const LOWER_A: u8 = 97;

/// The ASCII code of `f`.
const LOWER_F: u8 = 102;

/// The ASCII code of `i`.
const LOWER_I: u8 = 105;

/// The ASCII code of `n`.
const LOWER_N: u8 = 110;

/// `c` is one of the ten decimal digits.
pub open spec fn is_digit(c: char) -> bool {
    '0' <= c <= '9'
}

/// The character that stands for the digit `d`.
pub open spec fn digit_char(d: u8) -> char
    recommends
        d <= 9,
{
    (d + 48) as char
}

/// The text `"0"`, to which every operand is reset.
pub open spec fn zero_text() -> Seq<char> {
    seq!['0']
}

/// The text `"Error"`, shown in place of a result that is not finite.
pub open spec fn error_text() -> Seq<char> {
    seq!['E', 'r', 'r', 'o', 'r']
}

/// The rendering of a value that is not a number.
pub open spec fn nan_text() -> Seq<char> {
    seq!['N', 'a', 'N']
}

/// The rendering of positive infinity.
pub open spec fn inf_text() -> Seq<char> {
    seq!['i', 'n', 'f']
}

/// The rendering of negative infinity.
pub open spec fn neg_inf_text() -> Seq<char> {
    seq!['-', 'i', 'n', 'f']
}

/// `s` holds a decimal point.
pub open spec fn has_dot(s: Seq<char>) -> bool {
    exists|i: int| 0 <= i < s.len() && s[i] == '.'
}

/// No two places of `s` hold a decimal point.
pub open spec fn at_most_one_dot(s: Seq<char>) -> bool {
    forall|i: int, j: int| 0 <= i < j < s.len() && s[i] == '.' ==> s[j] != '.'
}

/// `c` may stand at place `i` of a draft: a digit or a decimal point
/// anywhere, a minus sign in front only.
pub open spec fn fits_draft(c: char, i: int) -> bool {
    is_digit(c) || c == '.' || (i == 0 && c == '-')
}

/// `s` is a number under construction.
pub open spec fn is_draft(s: Seq<char>) -> bool {
    &&& s.len() >= 1
    &&& forall|i: int| 0 <= i < s.len() ==> fits_draft(#[trigger] s[i], i)
    &&& at_most_one_dot(s)
}

/// `s` is a finished number: a draft that starts, after its sign, with a
/// digit and ends with one.
pub open spec fn is_numeral(s: Seq<char>) -> bool {
    &&& is_draft(s)
    &&& is_digit(s.last())
    &&& if s[0] == '-' {
        s.len() >= 2 && is_digit(s[1])
    } else {
        is_digit(s[0])
    }
}

/// `s` is one of the three words for a value that is not finite.
pub open spec fn is_not_finite(s: Seq<char>) -> bool {
    s == nan_text() || s == inf_text() || s == neg_inf_text()
}

/// `s` is what the arithmetic may hand back for a value.
pub open spec fn is_rendering(s: Seq<char>) -> bool {
    is_numeral(s) || is_not_finite(s)
}

/// `s` may stand on the result line: a numeral or the error marker.
pub open spec fn is_result(s: Seq<char>) -> bool {
    is_numeral(s) || s == error_text()
}

/// What the result line shows for a value rendered as `s`: the numeral
/// itself, or the error marker where the value is not finite.
pub open spec fn as_result(s: Seq<char>) -> Seq<char> {
    if is_numeral(s) {
        s
    } else {
        error_text()
    }
}

/// What an operand is set to from a value rendered as `s`: the numeral
/// itself, or `"0"` where the value is not finite.
pub open spec fn as_operand(s: Seq<char>) -> Seq<char> {
    if is_numeral(s) {
        s
    } else {
        zero_text()
    }
}

/// The number that `s` denotes is zero: `s` has a digit, and each of its
/// digits is `0`.
pub open spec fn is_zero(s: Seq<char>) -> bool {
    &&& exists|i: int| 0 <= i < s.len() && is_digit(s[i])
    &&& forall|i: int| 0 <= i < s.len() && is_digit(s[i]) ==> s[i] == '0'
}

/// The digits `ds` written out, one character each.
pub open spec fn digits_text(ds: Seq<u8>) -> Seq<char> {
    Seq::new(ds.len(), |i: int| digit_char(ds[i]))
}

/// The digits `ds` without the zeros in front of them; the last digit stays,
/// whatever it is.
pub open spec fn without_leading_zeros(ds: Seq<u8>) -> Seq<u8>
    decreases ds.len(),
{
    if ds.len() >= 2 && ds[0] == 0 {
        without_leading_zeros(ds.drop_first())
    } else {
        ds
    }
}

/// A draft holds characters of the ASCII range only.
pub proof fn lemma_draft_is_ascii(s: Seq<char>)
    requires
        is_draft(s),
    ensures
        vstd::utf8::is_ascii_chars(s),
{
}

/// A rendering holds characters of the ASCII range only.
pub proof fn lemma_rendering_is_ascii(s: Seq<char>)
    requires
        is_rendering(s),
    ensures
        vstd::utf8::is_ascii_chars(s),
{
    if is_numeral(s) {
        lemma_draft_is_ascii(s);
    }
}

/// The text of one digit.
pub fn digit_str(d: u8) -> (text: &'static str)
    requires
        d <= 9,
    ensures
        text@ == seq![digit_char(d)],
{
    proof {
        reveal_strlit("0");
        reveal_strlit("1");
        reveal_strlit("2");
        reveal_strlit("3");
        reveal_strlit("4");
        reveal_strlit("5");
        reveal_strlit("6");
        reveal_strlit("7");
        reveal_strlit("8");
        reveal_strlit("9");
    }
    let text = match d {
        0 => "0",
        1 => "1",
        2 => "2",
        3 => "3",
        4 => "4",
        5 => "5",
        6 => "6",
        7 => "7",
        8 => "8",
        _ => "9",
    };
    text
}

/// The number of characters of an ASCII text.
pub(crate) fn ascii_len(text: &str) -> (n: usize)
    requires
        is_ascii(text),
    ensures
        n == text@.len(),
{
    proof {
        is_ascii_spec_bytes(text);
    }
    text.as_bytes().len()
}

/// Whether `text` is a draft, decided in one pass over its characters.
pub fn recognize_draft(text: &str) -> (ok: bool)
    ensures
        ok == is_draft(text@),
{
    if !text.is_ascii() {
        proof {
            if is_draft(text@) {
                lemma_draft_is_ascii(text@);
            }
        }
        return false;
    }
    let n: usize = ascii_len(text);
    if n == 0 {
        return false;
    }
    let mut seen_dot: bool = false;
    let mut i: usize = 0;
    while i < n
        invariant
            is_ascii(text),
            n == text@.len(),
            i <= n,
            forall|k: int| 0 <= k < i ==> fits_draft(#[trigger] text@[k], k),
            forall|j: int, k: int| 0 <= j < k < i && text@[j] == '.' ==> text@[k] != '.',
            seen_dot == exists|k: int| 0 <= k < i && text@[k] == '.',
        decreases n - i,
    {
        let b: u8 = text.get_ascii(i);
        if b == DOT {
            if seen_dot {
                return false;
            }
            seen_dot = true;
        } else if DIGIT_0 <= b && b <= DIGIT_9 {
        } else if b == MINUS && i == 0 {
        } else {
            return false;
        }
        i += 1;
    }
    true
}

/// Whether `text` is a numeral.
pub fn recognize_numeral(text: &str) -> (ok: bool)
    ensures
        ok == is_numeral(text@),
{
    if !recognize_draft(text) {
        return false;
    }
    proof {
        lemma_draft_is_ascii(text@);
    }
    let n: usize = ascii_len(text);
    let first: u8 = text.get_ascii(0);
    let last: u8 = text.get_ascii(n - 1);
    if !(DIGIT_0 <= last && last <= DIGIT_9) {
        return false;
    }
    if first == MINUS {
        if n < 2 {
            return false;
        }
        let second: u8 = text.get_ascii(1);
        DIGIT_0 <= second && second <= DIGIT_9
    } else {
        DIGIT_0 <= first && first <= DIGIT_9
    }
}

/// Whether `text` is a rendering: a numeral, `"NaN"`, `"inf"` or `"-inf"`.
pub fn recognize_rendering(text: &str) -> (ok: bool)
    ensures
        ok == is_rendering(text@),
{
    if recognize_numeral(text) {
        return true;
    }
    if !text.is_ascii() {
        proof {
            if is_rendering(text@) {
                lemma_rendering_is_ascii(text@);
            }
        }
        return false;
    }
    let n: usize = ascii_len(text);
    if n == 3 {
        let b0: u8 = text.get_ascii(0);
        let b1: u8 = text.get_ascii(1);
        let b2: u8 = text.get_ascii(2);
        let ok = (b0 == UPPER_N && b1 == LOWER_A && b2 == UPPER_N) || (b0 == LOWER_I && b1
            == LOWER_N && b2 == LOWER_F);
        assert(ok ==> text@ =~= nan_text() || text@ =~= inf_text());
        ok
    } else if n == 4 {
        let b0: u8 = text.get_ascii(0);
        let b1: u8 = text.get_ascii(1);
        let b2: u8 = text.get_ascii(2);
        let b3: u8 = text.get_ascii(3);
        let ok = b0 == MINUS && b1 == LOWER_I && b2 == LOWER_N && b3 == LOWER_F;
        assert(ok ==> text@ =~= neg_inf_text());
        ok
    } else {
        false
    }
}

/// What the result line shows for a value rendered as `text`: the numeral
/// itself, or `"Error"` where the value is not finite.
pub fn shown_result(text: &str) -> (shown: String)
    ensures
        shown@ == as_result(text@),
{
    proof {
        reveal_strlit("Error");
    }
    if recognize_numeral(text) {
        text.to_owned()
    } else {
        "Error".to_owned()
    }
}

} // verus!
