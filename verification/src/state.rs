//! The calculator as a state machine over texts.
//!
//! A [`State`] is what a calculator holds between two key presses. Each key
//! has a function here that gives the state after it; [`State::step`] picks
//! the function for a message. The executable calculator is specified against
//! these functions, and the laws of the library are proved of them.

use vstd::prelude::*;
use crate::evaluation::Outcome;
use crate::history::Entry;
use crate::message::Msg;
use crate::numeral::{as_operand, as_result, has_dot, is_draft, is_result, is_zero, zero_text};
use crate::operand::{dotted, entered, erased};
use crate::operator::Operator;

verus! {

/// What a calculator holds.
pub struct State {
    /// The first operand, as typed so far.
    pub operand_1: Seq<char>,
    /// The second operand, as typed so far.
    pub operand_2: Seq<char>,
    /// The pending operator.
    pub operator: Operator,
    /// The result of the last calculation, or the error marker.
    pub result: Seq<char>,
    /// Whether typing goes to the first operand.
    pub editing_operand_1: bool,
    /// Whether the next digit starts a new number.
    pub fresh_entry: bool,
    /// The calculations carried out so far, oldest first.
    pub history: Seq<Entry>,
}

impl State {
    /// The state of a calculator that was just switched on.
    pub open spec fn initial() -> State {
        State {
            operand_1: zero_text(),
            operand_2: zero_text(),
            operator: Operator::Add,
            result: zero_text(),
            editing_operand_1: true,
            fresh_entry: false,
            history: Seq::empty(),
        }
    }

    /// Both operands are drafts, the result line holds a numeral or the
    /// error marker, every line of the history is well formed, and a second
    /// operand that a new number is about to replace is still `"0"`.
    pub open spec fn wf(self) -> bool {
        &&& is_draft(self.operand_1)
        &&& is_draft(self.operand_2)
        &&& is_result(self.result)
        &&& forall|i: int| 0 <= i < self.history.len() ==> (#[trigger] self.history[i]).wf()
        &&& self.fresh_entry && !self.editing_operand_1 ==> self.operand_2 == zero_text()
    }

    /// The operand that typing goes to.
    pub open spec fn edited(self) -> Seq<char> {
        if self.editing_operand_1 {
            self.operand_1
        } else {
            self.operand_2
        }
    }

    /// The next digit starts a new number in the edited operand: it would
    /// replace what is there.
    pub open spec fn starts_number(self) -> bool {
        self.fresh_entry || (is_zero(self.edited()) && !has_dot(self.edited()))
    }

    /// An operator and a second operand were typed, so that an operator
    /// key has an expression to evaluate first.
    pub open spec fn chains(self) -> bool {
        !self.fresh_entry && !self.editing_operand_1
    }

    /// Handling `msg` evaluates the pending expression.
    pub open spec fn evaluates(self, msg: Msg) -> bool {
        match msg {
            Msg::Calculate => true,
            Msg::ClickOperator(_) => self.chains(),
            _ => false,
        }
    }

    /// A digit key. Into the first operand, it also resets the second
    /// operand and the operator.
    pub open spec fn enter_digit(self, d: u8) -> State {
        if self.editing_operand_1 {
            State {
                operand_1: entered(self.operand_1, self.fresh_entry, d),
                operand_2: zero_text(),
                operator: Operator::Add,
                fresh_entry: false,
                ..self
            }
        } else {
            State {
                operand_2: entered(self.operand_2, self.fresh_entry, d),
                fresh_entry: false,
                ..self
            }
        }
    }

    /// The equals key, where the arithmetic gave `outcome`. The calculation
    /// joins the history as the arithmetic gave it. A finite result is shown
    /// and becomes the first operand; for any other the error marker is
    /// shown, and the first operand is reset.
    pub open spec fn calculate(self, outcome: Outcome) -> State {
        State {
            operand_1: as_operand(outcome.result),
            result: as_result(outcome.result),
            editing_operand_1: true,
            fresh_entry: true,
            history: self.history.push(Entry::of(outcome, self.operator)),
            ..self
        }
    }

    /// An operator key. A complete pending expression is evaluated first,
    /// with `outcome` for what the arithmetic gave.
    pub open spec fn enter_operator(self, operator: Operator, outcome: Option<Outcome>) -> State
        recommends
            self.chains() ==> outcome is Some,
    {
        let before = if self.chains() {
            self.calculate(outcome.unwrap())
        } else {
            self
        };
        State {
            operand_2: zero_text(),
            operator,
            editing_operand_1: false,
            fresh_entry: true,
            ..before
        }
    }

    /// The decimal point.
    pub open spec fn enter_dot(self) -> State {
        if self.editing_operand_1 {
            State { operand_1: dotted(self.operand_1), fresh_entry: false, ..self }
        } else {
            State { operand_2: dotted(self.operand_2), fresh_entry: false, ..self }
        }
    }

    /// Backspace. On a second operand that denotes zero it takes back the
    /// operator key: typing goes to the first operand again.
    pub open spec fn backspace(self) -> State {
        if self.editing_operand_1 {
            State {
                operand_1: erased(self.operand_1, self.fresh_entry),
                fresh_entry: false,
                ..self
            }
        } else if is_zero(self.operand_2) {
            State { editing_operand_1: true, fresh_entry: false, ..self }
        } else {
            State { operand_2: erased(self.operand_2, false), fresh_entry: false, ..self }
        }
    }

    /// The clear key: both operands are reset. Operator, result and history
    /// stay.
    pub open spec fn clear(self) -> State {
        State {
            operand_1: zero_text(),
            operand_2: zero_text(),
            editing_operand_1: true,
            fresh_entry: false,
            ..self
        }
    }

    /// A click on line `index` of the history: that calculation is brought
    /// back, with typing on its second operand. A result that is not finite
    /// comes back as the error marker, and an operand that is not finite as
    /// `"0"`; the line itself keeps its words. Where there is no such line,
    /// nothing changes.
    pub open spec fn load_from_history(self, index: usize) -> State {
        if index < self.history.len() {
            let entry = self.history[index as int];
            State {
                operand_1: as_operand(entry.operand_1),
                operator: entry.operator,
                operand_2: as_operand(entry.operand_2),
                result: as_result(entry.result),
                editing_operand_1: false,
                fresh_entry: false,
                ..self
            }
        } else {
            self
        }
    }

    /// The state after `msg`, with `outcome` for what the arithmetic gave
    /// where `msg` has the pending expression evaluated.
    pub open spec fn step(self, msg: Msg, outcome: Option<Outcome>) -> State
        recommends
            self.evaluates(msg) ==> outcome is Some,
    {
        match msg {
            Msg::Calculate => self.calculate(outcome.unwrap()),
            Msg::ClickNumber(d) => self.enter_digit(d),
            Msg::ClickOperator(operator) => self.enter_operator(operator, outcome),
            Msg::ClickDot => self.enter_dot(),
            Msg::Backspace => self.backspace(),
            Msg::Clear => self.clear(),
            Msg::LoadFromHistory(index) => self.load_from_history(index),
        }
    }

    /// The state after the digit keys `ds`, in this order.
    pub open spec fn enter_digits(self, ds: Seq<u8>) -> State
        decreases ds.len(),
    {
        if ds.len() == 0 {
            self
        } else {
            self.enter_digits(ds.drop_last()).enter_digit(ds.last())
        }
    }

    /// The state after the messages `events`, in this order, each with the
    /// outcome that came with it.
    pub open spec fn run(self, events: Seq<(Msg, Option<Outcome>)>) -> State
        decreases events.len(),
    {
        if events.len() == 0 {
            self
        } else {
            self.run(events.drop_last()).step(events.last().0, events.last().1)
        }
    }

    /// Every one of `events` can be handled in its turn.
    pub open spec fn accepts_all(self, events: Seq<(Msg, Option<Outcome>)>) -> bool
        decreases events.len(),
    {
        if events.len() == 0 {
            true
        } else {
            &&& self.accepts_all(events.drop_last())
            &&& self.run(events.drop_last()).accepts(events.last().0, events.last().1)
        }
    }

    /// The calculations that are carried out while `events` are handled,
    /// oldest first.
    pub open spec fn recorded(self, events: Seq<(Msg, Option<Outcome>)>) -> Seq<Entry>
        decreases events.len(),
    {
        if events.len() == 0 {
            Seq::empty()
        } else {
            let before = self.run(events.drop_last());
            let earlier = self.recorded(events.drop_last());
            if before.evaluates(events.last().0) {
                earlier.push(Entry::of(events.last().1.unwrap(), before.operator))
            } else {
                earlier
            }
        }
    }

    /// How many of `events` have the pending expression evaluated.
    pub open spec fn calculations(self, events: Seq<(Msg, Option<Outcome>)>) -> nat
        decreases events.len(),
    {
        if events.len() == 0 {
            0
        } else {
            let earlier = self.calculations(events.drop_last());
            if self.run(events.drop_last()).evaluates(events.last().0) {
                earlier + 1
            } else {
                earlier
            }
        }
    }

    /// `msg` can be handled with `outcome`: a digit key carries a digit, and
    /// where `msg` has the expression evaluated, there is a well-formed
    /// outcome.
    pub open spec fn accepts(self, msg: Msg, outcome: Option<Outcome>) -> bool {
        &&& msg.wf()
        &&& self.evaluates(msg) ==> outcome is Some && outcome.unwrap().wf()
    }

    /// What the display is drawn from: the first operand, the operator as
    /// it stands between operands, the second operand, and the result.
    pub open spec fn display(self) -> (Seq<char>, Seq<char>, Seq<char>, Seq<char>) {
        (self.operand_1, self.operator.spec_symbol(), self.operand_2, self.result)
    }

    /// The upper line of the display: the first operand, followed by the
    /// operator and the second operand once an operator was typed.
    pub open spec fn expression_line(self) -> Seq<char> {
        if self.editing_operand_1 {
            self.operand_1
        } else {
            self.operand_1 + self.operator.spec_symbol() + self.operand_2
        }
    }

    /// The lower line of the display: `= ` and the result.
    pub open spec fn result_line(self) -> Seq<char> {
        seq!['=', ' '] + self.result
    }
}

} // verus!
