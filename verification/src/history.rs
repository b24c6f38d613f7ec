//! One line of the history: a calculation that was carried out.

use vstd::prelude::*;
use vstd::string::*;
use crate::evaluation::{Evaluation, Outcome};
use crate::numeral::is_rendering;
use crate::operator::Operator;

verus! {

/// A completed calculation, as texts.
pub struct Entry {
    /// The first operand, as the arithmetic read it.
    pub operand_1: Seq<char>,
    /// The operator that was applied.
    pub operator: Operator,
    /// The second operand, as the arithmetic read it.
    pub operand_2: Seq<char>,
    /// The result: a numeral, or the word for a value that is not finite.
    pub result: Seq<char>,
}

impl Entry {
    /// Each of the three texts is a rendering.
    pub open spec fn wf(self) -> bool {
        &&& is_rendering(self.operand_1)
        &&& is_rendering(self.operand_2)
        &&& is_rendering(self.result)
    }

    /// The entry that records `outcome` for the operator `operator`.
    pub open spec fn of(outcome: Outcome, operator: Operator) -> Entry {
        Entry {
            operand_1: outcome.operand_1,
            operator,
            operand_2: outcome.operand_2,
            result: outcome.result,
        }
    }

    /// The entry as one line of text: `5 / 2 = 2.5`.
    pub open spec fn line(self) -> Seq<char> {
        self.operand_1 + self.operator.spec_symbol() + self.operand_2 + seq![' ', '=', ' ']
            + self.result
    }
}

/// The entries that a list of calculations stands for.
pub open spec fn entries(calculations: Seq<Calculation>) -> Seq<Entry> {
    calculations.map_values(|c: Calculation| c@)
}

/// A completed calculation.
pub struct Calculation {
    operand_1: String,
    operator: Operator,
    operand_2: String,
    result: String,
}

impl View for Calculation {
    type V = Entry;

    closed spec fn view(&self) -> Entry {
        Entry {
            operand_1: self.operand_1@,
            operator: self.operator,
            operand_2: self.operand_2@,
            result: self.result@,
        }
    }
}

impl Calculation {
    /// The texts have the shapes that an entry asks for.
    pub open spec fn wf(&self) -> bool {
        self@.wf()
    }

    /// The record of `evaluation` for the operator `operator`.
    pub fn record(evaluation: &Evaluation, operator: Operator) -> (calculation: Calculation)
        requires
            evaluation.wf(),
        ensures
            calculation.wf(),
            calculation@ == Entry::of(evaluation@, operator),
    {
        Calculation {
            operand_1: evaluation.operand_1().to_owned(),
            operator,
            operand_2: evaluation.operand_2().to_owned(),
            result: evaluation.result().to_owned(),
        }
    }

    /// The first operand.
    pub fn operand_1(&self) -> (text: &str)
        ensures
            text@ == self@.operand_1,
    {
        self.operand_1.as_str()
    }

    /// The operator that was applied.
    pub fn operator(&self) -> (operator: Operator)
        ensures
            operator == self@.operator,
    {
        self.operator
    }

    /// The second operand.
    pub fn operand_2(&self) -> (text: &str)
        ensures
            text@ == self@.operand_2,
    {
        self.operand_2.as_str()
    }

    /// The result.
    pub fn result(&self) -> (text: &str)
        ensures
            text@ == self@.result,
    {
        self.result.as_str()
    }

    /// The calculation as one line of text: `5 / 2 = 2.5`.
    pub fn line(&self) -> (text: String)
        ensures
            text@ == self@.line(),
    {
        proof {
            reveal_strlit(" = ");
        }
        let mut text = self.operand_1.clone();
        text.append(self.operator.symbol());
        text.append(self.operand_2.as_str());
        text.append(" = ");
        text.append(self.result.as_str());
        text
    }
}

} // verus!
