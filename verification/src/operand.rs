//! An operand while it is being typed.
//!
//! An [`Operand`] holds the text of a number under construction and changes
//! only through the key presses of a calculator: a digit, the decimal point,
//! backspace. Whatever is typed, the text stays a draft: it is never empty and
//! never holds a second decimal point.

use vstd::prelude::*;
use vstd::string::*;
use crate::numeral::{
    as_operand, ascii_len, digit_char, digit_str, has_dot, is_digit, is_draft, is_zero,
    lemma_draft_is_ascii, recognize_draft, recognize_numeral, zero_text, DIGIT_0, DIGIT_9, DOT,
};

verus! {

/// The text of an operand after the digit `d` is typed. The digit replaces
/// the text where a new number starts (`fresh`), or where the text denotes
/// zero and has no decimal point yet; else it is appended.
pub open spec fn entered(t: Seq<char>, fresh: bool, d: u8) -> Seq<char> {
    if fresh || (is_zero(t) && !has_dot(t)) {
        seq![digit_char(d)]
    } else {
        t.push(digit_char(d))
    }
}

/// The text of an operand after the decimal point is typed: it is appended
/// unless the text holds one already.
pub open spec fn dotted(t: Seq<char>) -> Seq<char> {
    if has_dot(t) {
        t
    } else {
        t.push('.')
    }
}

/// The text of an operand after backspace: its last character goes, but a
/// text of one character, or one that a new number would replace (`fresh`),
/// becomes `"0"`.
pub open spec fn erased(t: Seq<char>, fresh: bool) -> Seq<char> {
    if t.len() <= 1 || fresh {
        zero_text()
    } else {
        t.drop_last()
    }
}

/// Typing a digit into a draft leaves a draft.
pub proof fn lemma_entered_is_draft(t: Seq<char>, fresh: bool, d: u8)
    requires
        is_draft(t),
        d <= 9,
    ensures
        is_draft(entered(t, fresh, d)),
{
    assert(is_digit(digit_char(d)));
}

/// Typing the decimal point into a draft leaves a draft, which holds one.
pub proof fn lemma_dotted_is_draft(t: Seq<char>)
    requires
        is_draft(t),
    ensures
        is_draft(dotted(t)),
        has_dot(dotted(t)),
{
    if !has_dot(t) {
        assert(dotted(t)[t.len() as int] == '.');
    }
}

/// Backspace on a draft leaves a draft.
pub proof fn lemma_erased_is_draft(t: Seq<char>, fresh: bool)
    requires
        is_draft(t),
    ensures
        is_draft(erased(t, fresh)),
{
}

/// A number under construction.
pub struct Operand {
    text: String,
}

impl View for Operand {
    type V = Seq<char>;

    closed spec fn view(&self) -> Seq<char> {
        self.text@
    }
}

impl Operand {
    /// The text is a draft.
    pub open spec fn wf(&self) -> bool {
        is_draft(self@)
    }

    /// The operand `"0"`.
    pub fn zero() -> (operand: Operand)
        ensures
            operand.wf(),
            operand@ == zero_text(),
    {
        proof {
            reveal_strlit("0");
        }
        Operand { text: "0".to_owned() }
    }

    /// The operand with the given text, where that text is a draft.
    pub fn parse(text: &str) -> (operand: Option<Operand>)
        ensures
            operand is Some <==> is_draft(text@),
            operand matches Some(o) ==> o.wf() && o@ == text@,
    {
        if recognize_draft(text) {
            Some(Operand { text: text.to_owned() })
        } else {
            None
        }
    }

    /// The operand that starts from a value rendered as `text`: the
    /// numeral itself, or `"0"` where the value is not finite.
    pub fn from_rendering(text: &str) -> (operand: Operand)
        ensures
            operand.wf(),
            operand@ == as_operand(text@),
    {
        if recognize_numeral(text) {
            Operand { text: text.to_owned() }
        } else {
            Operand::zero()
        }
    }

    /// The text of the operand.
    pub fn text(&self) -> (text: &str)
        ensures
            text@ == self@,
    {
        self.text.as_str()
    }

    /// The number of characters of the operand.
    pub fn len(&self) -> (n: usize)
        requires
            self.wf(),
        ensures
            n == self@.len(),
    {
        proof {
            lemma_draft_is_ascii(self@);
        }
        ascii_len(self.text.as_str())
    }

    /// Whether the operand holds a decimal point.
    pub fn has_dot(&self) -> (found: bool)
        requires
            self.wf(),
        ensures
            found == has_dot(self@),
    {
        proof {
            lemma_draft_is_ascii(self@);
        }
        let text = self.text.as_str();
        let n: usize = self.len();
        let mut i: usize = 0;
        while i < n
            invariant
                is_ascii(text),
                text@ == self@,
                n == text@.len(),
                i <= n,
                forall|k: int| 0 <= k < i ==> text@[k] != '.',
            decreases n - i,
        {
            let b: u8 = text.get_ascii(i);
            if b == DOT {
                return true;
            }
            i += 1;
        }
        false
    }

    /// Whether the operand denotes zero.
    pub fn is_zero(&self) -> (zero: bool)
        requires
            self.wf(),
        ensures
            zero == is_zero(self@),
    {
        proof {
            lemma_draft_is_ascii(self@);
        }
        let text = self.text.as_str();
        let n: usize = self.len();
        let mut seen_digit: bool = false;
        let mut i: usize = 0;
        while i < n
            invariant
                is_ascii(text),
                text@ == self@,
                n == text@.len(),
                i <= n,
                forall|k: int| 0 <= k < i && is_digit(text@[k]) ==> text@[k] == '0',
                seen_digit == exists|k: int| 0 <= k < i && is_digit(text@[k]),
            decreases n - i,
        {
            let b: u8 = text.get_ascii(i);
            if DIGIT_0 < b && b <= DIGIT_9 {
                return false;
            }
            if b == DIGIT_0 {
                seen_digit = true;
            }
            i += 1;
        }
        seen_digit
    }

    /// Types the digit `d`.
    pub fn enter_digit(&mut self, d: u8, fresh: bool)
        requires
            old(self).wf(),
            d <= 9,
        ensures
            final(self).wf(),
            final(self)@ == entered(old(self)@, fresh, d),
    {
        proof {
            lemma_entered_is_draft(self@, fresh, d);
        }
        if fresh || (self.is_zero() && !self.has_dot()) {
            self.text = digit_str(d).to_owned();
        } else {
            self.text.append(digit_str(d));
        }
    }

    /// Types the decimal point.
    pub fn enter_dot(&mut self)
        requires
            old(self).wf(),
        ensures
            final(self).wf(),
            final(self)@ == dotted(old(self)@),
    {
        proof {
            lemma_dotted_is_draft(self@);
            reveal_strlit(".");
        }
        if !self.has_dot() {
            self.text.append(".");
        }
    }

    /// Takes the last character away, or resets the operand to `"0"`.
    pub fn backspace(&mut self, fresh: bool)
        requires
            old(self).wf(),
        ensures
            final(self).wf(),
            final(self)@ == erased(old(self)@, fresh),
    {
        proof {
            lemma_erased_is_draft(self@, fresh);
            lemma_draft_is_ascii(self@);
            reveal_strlit("0");
        }
        let n: usize = self.len();
        if n <= 1 || fresh {
            self.text = "0".to_owned();
        } else {
            self.text = self.text.as_str().substring_ascii(0, n - 1).to_owned();
        }
    }

    /// Resets the operand to `"0"`.
    pub fn reset(&mut self)
        ensures
            final(self).wf(),
            final(self)@ == zero_text(),
    {
        proof {
            reveal_strlit("0");
        }
        self.text = "0".to_owned();
    }
}

} // verus!
