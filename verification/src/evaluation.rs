//! What the arithmetic hands back for one expression.
//!
//! The calculator keeps its operands as text and leaves the arithmetic to
//! its caller. An [`Evaluation`] carries the answer: both operands as the
//! arithmetic read them, and the result, each rendered as text again.

use vstd::prelude::*;
use crate::numeral::{is_numeral, is_rendering, recognize_numeral, recognize_rendering};

verus! {

/// The values of one evaluated expression, as texts.
pub struct Outcome {
    /// The first operand, as the arithmetic read it.
    pub operand_1: Seq<char>,
    /// The second operand, as the arithmetic read it.
    pub operand_2: Seq<char>,
    /// The result.
    pub result: Seq<char>,
}

impl Outcome {
    /// Each of the three texts is a rendering. An operand too large for
    /// the arithmetic is one that reads as not finite.
    pub open spec fn wf(self) -> bool {
        &&& is_rendering(self.operand_1)
        &&& is_rendering(self.operand_2)
        &&& is_rendering(self.result)
    }

    /// The result is a finite number.
    pub open spec fn is_finite(self) -> bool {
        is_numeral(self.result)
    }
}

/// The answer of the arithmetic to one expression.
pub struct Evaluation {
    operand_1: String,
    operand_2: String,
    result: String,
}

impl View for Evaluation {
    type V = Outcome;

    closed spec fn view(&self) -> Outcome {
        Outcome { operand_1: self.operand_1@, operand_2: self.operand_2@, result: self.result@ }
    }
}

impl Evaluation {
    /// The texts have the shapes that an outcome asks for.
    pub open spec fn wf(&self) -> bool {
        self@.wf()
    }

    /// The evaluation with these three texts, where each of them is a
    /// rendering: a numeral, `"NaN"`, `"inf"` or `"-inf"`.
    pub fn new(operand_1: &str, operand_2: &str, result: &str) -> (evaluation: Option<Evaluation>)
        ensures
            evaluation is Some <==> is_rendering(operand_1@) && is_rendering(operand_2@)
                && is_rendering(result@),
            evaluation matches Some(e) ==> e.wf() && e@ == (Outcome {
                operand_1: operand_1@,
                operand_2: operand_2@,
                result: result@,
            }),
    {
        if recognize_rendering(operand_1) && recognize_rendering(operand_2) && recognize_rendering(
            result,
        ) {
            Some(
                Evaluation {
                    operand_1: operand_1.to_owned(),
                    operand_2: operand_2.to_owned(),
                    result: result.to_owned(),
                },
            )
        } else {
            None
        }
    }

    /// The first operand, as the arithmetic read it.
    pub fn operand_1(&self) -> (text: &str)
        ensures
            text@ == self@.operand_1,
    {
        self.operand_1.as_str()
    }

    /// The second operand, as the arithmetic read it.
    pub fn operand_2(&self) -> (text: &str)
        ensures
            text@ == self@.operand_2,
    {
        self.operand_2.as_str()
    }

    /// The result.
    pub fn result(&self) -> (text: &str)
        ensures
            text@ == self@.result,
    {
        self.result.as_str()
    }

    /// Whether the result is a finite number.
    pub fn is_finite(&self) -> (finite: bool)
        ensures
            finite == self@.is_finite(),
    {
        recognize_numeral(self.result.as_str())
    }
}

/// The outcome that an evaluation carries, if there is one.
pub open spec fn outcome_of(evaluation: Option<Evaluation>) -> Option<Outcome> {
    match evaluation {
        Some(e) => Some(e@),
        None => None,
    }
}

} // verus!
