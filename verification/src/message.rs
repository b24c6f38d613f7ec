//! The key presses that a calculator answers to.

use vstd::prelude::*;
use crate::operator::Operator;

verus! {

/// One key press, or one click on a line of the history.
#[derive(Clone, Copy, Debug, PartialEq, Eq, Structural)]
pub enum Msg {
    /// The equals key: evaluate the pending expression.
    Calculate,
    /// A digit key, with the digit `0` to `9`.
    ClickNumber(u8),
    /// An operator key.
    ClickOperator(Operator),
    /// The decimal point.
    ClickDot,
    /// Take back the last character typed.
    Backspace,
    /// Reset both operands.
    Clear,
    /// Bring back the calculation at this place of the history.
    LoadFromHistory(usize),
}

impl Msg {
    /// A digit key carries a digit.
    pub open spec fn wf(self) -> bool {
        self matches Msg::ClickNumber(d) ==> d <= 9
    }

    /// What is written on the key of the message. Digit keys are labelled
    /// by their digit, not here; a line of the history has no key.
    pub open spec fn spec_label(self) -> Seq<char> {
        match self {
            Msg::Calculate => seq!['='],
            Msg::ClickOperator(operator) => seq![operator.spec_glyph()],
            Msg::ClickDot => seq!['.'],
            Msg::Backspace => seq!['B'],
            Msg::Clear => seq!['A', 'C'],
            Msg::ClickNumber(_) => Seq::empty(),
            Msg::LoadFromHistory(_) => Seq::empty(),
        }
    }

    /// What is written on the key of the message.
    pub fn label(&self) -> (text: &'static str)
        ensures
            text@ == self.spec_label(),
    {
        proof {
            reveal_strlit("=");
            reveal_strlit(".");
            reveal_strlit("B");
            reveal_strlit("AC");
            reveal_strlit("");
        }
        let text = match self {
            Msg::Calculate => "=",
            Msg::ClickOperator(operator) => operator.glyph(),
            Msg::ClickDot => ".",
            Msg::Backspace => "B",
            Msg::Clear => "AC",
            _ => "",
        };
        text
    }

    /// Whether a digit key carries a digit.
    pub fn is_wf(&self) -> (ok: bool)
        ensures
            ok == self.wf(),
    {
        match self {
            Msg::ClickNumber(d) => *d <= 9,
            _ => true,
        }
    }
}

} // verus!
