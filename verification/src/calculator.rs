//! The calculator itself.
//!
//! A [`Calculator`] holds the expression under construction, the last result
//! and the history, and changes them one key press at a time. It does no
//! arithmetic of its own: where a key has the pending expression evaluated,
//! the caller evaluates it and hands the [`Evaluation`] in.

use vstd::prelude::*;
use vstd::string::*;
use crate::evaluation::{outcome_of, Evaluation};
use crate::history::{entries, Calculation};
use crate::laws::{
    backspace_keeps_well_formed, calculate_keeps_well_formed, enter_digit_keeps_well_formed,
    enter_dot_keeps_well_formed, enter_operator_keeps_well_formed,
    load_from_history_keeps_well_formed,
};
use crate::message::Msg;
use crate::numeral::{shown_result, zero_text};
use crate::operand::Operand;
use crate::operator::Operator;
use crate::state::State;

verus! {

/// A two-operand calculator with a history.
pub struct Calculator {
    result: String,
    operand_1: Operand,
    operand_2: Operand,
    operator: Operator,
    editing_operand_1: bool,
    fresh_entry: bool,
    history: Vec<Calculation>,
}

impl View for Calculator {
    type V = State;

    closed spec fn view(&self) -> State {
        State {
            operand_1: self.operand_1@,
            operand_2: self.operand_2@,
            operator: self.operator,
            result: self.result@,
            editing_operand_1: self.editing_operand_1,
            fresh_entry: self.fresh_entry,
            history: entries(self.history@),
        }
    }
}

impl Calculator {
    /// The state that the calculator stands for is well formed.
    pub open spec fn wf(&self) -> bool {
        self@.wf()
    }

    /// A calculator that shows `0` and has an empty history.
    pub fn new() -> (calculator: Calculator)
        ensures
            calculator.wf(),
            calculator@ == State::initial(),
    {
        proof {
            reveal_strlit("0");
        }
        let calculator = Calculator {
            result: "0".to_owned(),
            operand_1: Operand::zero(),
            operand_2: Operand::zero(),
            operator: Operator::Add,
            editing_operand_1: true,
            fresh_entry: false,
            history: Vec::new(),
        };
        assert(calculator.result@ =~= zero_text());
        assert(entries(calculator.history@) =~= Seq::empty());
        calculator
    }

    /// Handles one message. Where the message has the pending expression
    /// evaluated, `outcome` holds what the arithmetic gave for it.
    pub fn update(&mut self, msg: Msg, outcome: Option<Evaluation>)
        requires
            old(self).wf(),
            old(self)@.accepts(msg, outcome_of(outcome)),
        ensures
            final(self).wf(),
            final(self)@ == old(self)@.step(msg, outcome_of(outcome)),
    {
        match msg {
            Msg::Calculate => self.calculate(outcome.unwrap()),
            Msg::ClickNumber(d) => self.enter_digit(d),
            Msg::ClickOperator(operator) => self.enter_operator(operator, outcome),
            Msg::ClickDot => self.enter_dot(),
            Msg::Backspace => self.backspace(),
            Msg::Clear => self.clear(),
            Msg::LoadFromHistory(index) => self.load_from_history(index),
        }
    }

    /// The equals key: records the calculation and shows its result, or the
    /// error marker where the result is not finite.
    pub fn calculate(&mut self, outcome: Evaluation)
        requires
            old(self).wf(),
            outcome.wf(),
        ensures
            final(self).wf(),
            final(self)@ == old(self)@.calculate(outcome@),
    {
        proof {
            calculate_keeps_well_formed(self@, outcome@);
        }
        let calculation = Calculation::record(&outcome, self.operator);
        self.history.push(calculation);
        self.result = shown_result(outcome.result());
        self.operand_1 = Operand::from_rendering(outcome.result());
        self.editing_operand_1 = true;
        self.fresh_entry = true;
        assert(self@.history =~= old(self)@.calculate(outcome@).history);
    }

    /// A digit key.
    pub fn enter_digit(&mut self, d: u8)
        requires
            old(self).wf(),
            d <= 9,
        ensures
            final(self).wf(),
            final(self)@ == old(self)@.enter_digit(d),
    {
        proof {
            enter_digit_keeps_well_formed(self@, d);
        }
        if self.editing_operand_1 {
            self.operand_1.enter_digit(d, self.fresh_entry);
            self.operand_2.reset();
            self.operator = Operator::Add;
        } else {
            self.operand_2.enter_digit(d, self.fresh_entry);
        }
        self.fresh_entry = false;
    }

    /// An operator key. A complete pending expression is evaluated first,
    /// with `outcome` for what the arithmetic gave.
    pub fn enter_operator(&mut self, operator: Operator, outcome: Option<Evaluation>)
        requires
            old(self).wf(),
            old(self)@.chains() ==> outcome is Some && outcome.unwrap().wf(),
        ensures
            final(self).wf(),
            final(self)@ == old(self)@.enter_operator(operator, outcome_of(outcome)),
    {
        proof {
            enter_operator_keeps_well_formed(self@, operator, outcome_of(outcome));
        }
        if !self.fresh_entry && !self.editing_operand_1 {
            self.calculate(outcome.unwrap());
        }
        self.operand_2.reset();
        self.operator = operator;
        self.editing_operand_1 = false;
        self.fresh_entry = true;
    }

    /// The decimal point.
    pub fn enter_dot(&mut self)
        requires
            old(self).wf(),
        ensures
            final(self).wf(),
            final(self)@ == old(self)@.enter_dot(),
    {
        proof {
            enter_dot_keeps_well_formed(self@);
        }
        if self.editing_operand_1 {
            self.operand_1.enter_dot();
        } else {
            self.operand_2.enter_dot();
        }
        self.fresh_entry = false;
    }

    /// Backspace.
    pub fn backspace(&mut self)
        requires
            old(self).wf(),
        ensures
            final(self).wf(),
            final(self)@ == old(self)@.backspace(),
    {
        proof {
            backspace_keeps_well_formed(self@);
        }
        if self.editing_operand_1 {
            self.operand_1.backspace(self.fresh_entry);
        } else if self.operand_2.is_zero() {
            self.editing_operand_1 = true;
        } else {
            self.operand_2.backspace(false);
        }
        self.fresh_entry = false;
    }

    /// The clear key.
    pub fn clear(&mut self)
        requires
            old(self).wf(),
        ensures
            final(self).wf(),
            final(self)@ == old(self)@.clear(),
    {
        self.operand_1.reset();
        self.operand_2.reset();
        self.editing_operand_1 = true;
        self.fresh_entry = false;
    }

    /// A click on line `index` of the history: that calculation is brought
    /// back. A result that is not finite comes back as the error marker, an
    /// operand that is not finite as `"0"`. Where the history has no such
    /// line, nothing changes.
    pub fn load_from_history(&mut self, index: usize)
        requires
            old(self).wf(),
        ensures
            final(self).wf(),
            final(self)@ == old(self)@.load_from_history(index),
            index >= old(self)@.history.len() ==> final(self)@ == old(self)@,
    {
        proof {
            load_from_history_keeps_well_formed(self@, index);
        }
        if index < self.history.len() {
            let calculation = &self.history[index];
            let operand_1 = Operand::from_rendering(calculation.operand_1());
            let operand_2 = Operand::from_rendering(calculation.operand_2());
            let operator = calculation.operator();
            let result = shown_result(calculation.result());
            self.operand_1 = operand_1;
            self.operator = operator;
            self.operand_2 = operand_2;
            self.result = result;
            self.editing_operand_1 = false;
            self.fresh_entry = false;
        }
    }

    /// Whether handling `msg` has the pending expression evaluated, so that
    /// [`Calculator::update`] needs an outcome for it.
    pub fn needs_evaluation(&self, msg: &Msg) -> (needed: bool)
        ensures
            needed == self@.evaluates(*msg),
    {
        match msg {
            Msg::Calculate => true,
            Msg::ClickOperator(_) => !self.fresh_entry && !self.editing_operand_1,
            _ => false,
        }
    }

    /// The pending expression: what the arithmetic is to evaluate where a
    /// message asks for it.
    pub fn expression(&self) -> (expression: (&str, Operator, &str))
        ensures
            expression.0@ == self@.operand_1,
            expression.1 == self@.operator,
            expression.2@ == self@.operand_2,
    {
        (self.operand_1.text(), self.operator, self.operand_2.text())
    }

    /// The first operand, as typed so far.
    pub fn operand_1(&self) -> (text: &str)
        ensures
            text@ == self@.operand_1,
    {
        self.operand_1.text()
    }

    /// The second operand, as typed so far.
    pub fn operand_2(&self) -> (text: &str)
        ensures
            text@ == self@.operand_2,
    {
        self.operand_2.text()
    }

    /// The pending operator.
    pub fn operator(&self) -> (operator: Operator)
        ensures
            operator == self@.operator,
    {
        self.operator
    }

    /// The result of the last calculation, or the error marker.
    pub fn result(&self) -> (text: &str)
        ensures
            text@ == self@.result,
    {
        self.result.as_str()
    }

    /// Whether typing goes to the first operand.
    pub fn is_editing_operand_1(&self) -> (editing: bool)
        ensures
            editing == self@.editing_operand_1,
    {
        self.editing_operand_1
    }

    /// Whether the next digit starts a new number.
    pub fn is_fresh_entry(&self) -> (fresh: bool)
        ensures
            fresh == self@.fresh_entry,
    {
        self.fresh_entry
    }

    /// The calculations carried out so far, oldest first.
    pub fn history(&self) -> (history: &Vec<Calculation>)
        ensures
            entries(history@) == self@.history,
    {
        &self.history
    }

    /// What the display is drawn from: the first operand, the operator as
    /// it stands between operands, the second operand, and the result.
    pub fn display(&self) -> (display: (&str, &'static str, &str, &str))
        ensures
            display.0@ == self@.display().0,
            display.1@ == self@.display().1,
            display.2@ == self@.display().2,
            display.3@ == self@.display().3,
    {
        (self.operand_1.text(), self.operator.symbol(), self.operand_2.text(), self.result.as_str())
    }

    /// The upper line of the display: the first operand, followed by the
    /// operator and the second operand once an operator was typed.
    pub fn expression_line(&self) -> (text: String)
        ensures
            text@ == self@.expression_line(),
    {
        let mut text = self.operand_1.text().to_owned();
        if !self.editing_operand_1 {
            text.append(self.operator.symbol());
            text.append(self.operand_2.text());
        }
        text
    }

    /// The lower line of the display: `= ` and the result.
    pub fn result_line(&self) -> (text: String)
        ensures
            text@ == self@.result_line(),
    {
        proof {
            reveal_strlit("= ");
        }
        let mut text = "= ".to_owned();
        text.append(self.result.as_str());
        text
    }
}

} // verus!
