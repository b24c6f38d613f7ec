//! What holds of every calculator, proved of the state machine.

use vstd::prelude::*;
use crate::evaluation::Outcome;
use crate::history::Entry;
use crate::message::Msg;
use crate::numeral::{
    as_operand, at_most_one_dot, digits_text, error_text, has_dot, is_digit, is_numeral,
    without_leading_zeros, zero_text,
};
use crate::operand::{lemma_dotted_is_draft, lemma_entered_is_draft, lemma_erased_is_draft};
use crate::operator::Operator;
use crate::state::State;

verus! {

/// A calculator that was just switched on is well formed.
pub proof fn initial_is_well_formed()
    ensures
        State::initial().wf(),
{
}

/// A digit key leaves a well-formed state well formed.
pub proof fn enter_digit_keeps_well_formed(s: State, d: u8)
    requires
        s.wf(),
        d <= 9,
    ensures
        s.enter_digit(d).wf(),
{
    lemma_entered_is_draft(s.operand_1, s.fresh_entry, d);
    lemma_entered_is_draft(s.operand_2, s.fresh_entry, d);
}

/// A calculation leaves a well-formed state well formed, whether its result
/// is finite or not.
pub proof fn calculate_keeps_well_formed(s: State, outcome: Outcome)
    requires
        s.wf(),
        outcome.wf(),
    ensures
        s.calculate(outcome).wf(),
{
}

/// An operator key leaves a well-formed state well formed.
pub proof fn enter_operator_keeps_well_formed(s: State, operator: Operator, outcome: Option<Outcome>)
    requires
        s.wf(),
        s.chains() ==> outcome is Some && outcome.unwrap().wf(),
    ensures
        s.enter_operator(operator, outcome).wf(),
{
    if s.chains() {
        calculate_keeps_well_formed(s, outcome.unwrap());
    }
}

/// The decimal point leaves a well-formed state well formed.
pub proof fn enter_dot_keeps_well_formed(s: State)
    requires
        s.wf(),
    ensures
        s.enter_dot().wf(),
{
    lemma_dotted_is_draft(s.operand_1);
    lemma_dotted_is_draft(s.operand_2);
}

/// Backspace leaves a well-formed state well formed.
pub proof fn backspace_keeps_well_formed(s: State)
    requires
        s.wf(),
    ensures
        s.backspace().wf(),
{
    lemma_erased_is_draft(s.operand_1, s.fresh_entry);
    lemma_erased_is_draft(s.operand_2, false);
}

/// A click on the history leaves a well-formed state well formed.
pub proof fn load_from_history_keeps_well_formed(s: State, index: usize)
    requires
        s.wf(),
    ensures
        s.load_from_history(index).wf(),
{
}

/// Well-formedness is an invariant: every message that a well-formed state
/// accepts leads to a well-formed state.
pub proof fn step_keeps_well_formed(s: State, msg: Msg, outcome: Option<Outcome>)
    requires
        s.wf(),
        s.accepts(msg, outcome),
    ensures
        s.step(msg, outcome).wf(),
{
    match msg {
        Msg::Calculate => calculate_keeps_well_formed(s, outcome.unwrap()),
        Msg::ClickNumber(d) => enter_digit_keeps_well_formed(s, d),
        Msg::ClickOperator(operator) => enter_operator_keeps_well_formed(s, operator, outcome),
        Msg::ClickDot => enter_dot_keeps_well_formed(s),
        Msg::Backspace => backspace_keeps_well_formed(s),
        Msg::Clear => {},
        Msg::LoadFromHistory(index) => load_from_history_keeps_well_formed(s, index),
    }
}

/// Every run of accepted messages from a well-formed state ends in a
/// well-formed state.
pub proof fn run_keeps_well_formed(s: State, events: Seq<(Msg, Option<Outcome>)>)
    requires
        s.wf(),
        s.accepts_all(events),
    ensures
        s.run(events).wf(),
    decreases events.len(),
{
    if events.len() > 0 {
        run_keeps_well_formed(s, events.drop_last());
        step_keeps_well_formed(s.run(events.drop_last()), events.last().0, events.last().1);
    }
}

/// What is left of digits without their leading zeros is not empty, holds
/// digits only, and starts with a zero only where it is the single digit `0`.
proof fn lemma_without_leading_zeros(ds: Seq<u8>)
    requires
        ds.len() >= 1,
        forall|i: int| 0 <= i < ds.len() ==> ds[i] <= 9,
    ensures
        without_leading_zeros(ds).len() >= 1,
        forall|i: int|
            0 <= i < without_leading_zeros(ds).len() ==> without_leading_zeros(ds)[i] <= 9,
        without_leading_zeros(ds)[0] == 0 ==> without_leading_zeros(ds) == seq![0u8],
    decreases ds.len(),
{
    if ds.len() >= 2 && ds[0] == 0 {
        lemma_without_leading_zeros(ds.drop_first());
    }
}

/// One more digit behind: it replaces a lone zero, and follows anything else.
proof fn lemma_without_leading_zeros_push(ds: Seq<u8>, d: u8)
    requires
        ds.len() >= 1,
    ensures
        without_leading_zeros(ds.push(d)) == if without_leading_zeros(ds) == seq![0u8] {
            seq![d]
        } else {
            without_leading_zeros(ds).push(d)
        },
    decreases ds.len(),
{
    let longer = ds.push(d);
    if ds.len() >= 2 && ds[0] == 0 {
        assert(longer.drop_first() =~= ds.drop_first().push(d));
        lemma_without_leading_zeros_push(ds.drop_first(), d);
    } else if ds[0] == 0 {
        assert(ds =~= seq![0u8]);
        assert(longer.drop_first() =~= seq![d]);
        assert(without_leading_zeros(seq![d]) == seq![d]);
    }
}

/// Digits typed into an operand in which a new number starts make up that
/// operand: its text is the digits in the order typed, one character each,
/// without the zeros typed in front. Typing `0`, `5` gives `5`; typing `0`,
/// `0` gives `0`.
pub proof fn typed_digits_concatenate(s: State, ds: Seq<u8>)
    requires
        s.starts_number(),
        ds.len() >= 1,
        forall|i: int| 0 <= i < ds.len() ==> ds[i] <= 9,
    ensures
        s.enter_digits(ds).edited() == digits_text(without_leading_zeros(ds)),
        s.enter_digits(ds).editing_operand_1 == s.editing_operand_1,
        !s.enter_digits(ds).fresh_entry,
    decreases ds.len(),
{
    let d = ds.last();
    let earlier = ds.drop_last();
    assert(ds =~= earlier.push(d));
    if earlier.len() > 0 {
        typed_digits_concatenate(s, earlier);
        lemma_without_leading_zeros(earlier);
        lemma_without_leading_zeros_push(earlier, d);
        let t = s.enter_digits(earlier).edited();
        assert forall|i: int| 0 <= i < t.len() implies is_digit(#[trigger] t[i]) by {}
        assert(is_digit(t[0]));
    }
}

/// The decimal point is idempotent: typed twice, it does what it does typed
/// once, and the edited operand then holds exactly one decimal point.
pub proof fn dot_is_idempotent(s: State)
    requires
        s.wf(),
    ensures
        s.enter_dot().enter_dot() == s.enter_dot(),
        has_dot(s.enter_dot().edited()),
        at_most_one_dot(s.enter_dot().edited()),
{
    lemma_dotted_is_draft(s.operand_1);
    lemma_dotted_is_draft(s.operand_2);
}

/// Backspace on an operand of one character, or on one that a new number
/// is about to replace, leaves that operand at `"0"`.
pub proof fn backspace_resets_short_operand(s: State)
    requires
        s.wf(),
        s.edited().len() <= 1 || s.fresh_entry,
    ensures
        s.editing_operand_1 ==> s.backspace().operand_1 == zero_text(),
        !s.editing_operand_1 ==> s.backspace().operand_2 == zero_text(),
{
}

/// Backspace never leaves an operand empty.
pub proof fn backspace_never_empties(s: State)
    requires
        s.wf(),
    ensures
        s.backspace().operand_1.len() >= 1,
        s.backspace().operand_2.len() >= 1,
{
    backspace_keeps_well_formed(s);
}

/// Operators chain from left to right: an operator key on a complete
/// expression does what the equals key followed by that operator key does,
/// so that the earlier operator is resolved before the later one applies.
pub proof fn operator_key_chains(
    s: State,
    operator: Operator,
    outcome: Outcome,
    later: Option<Outcome>,
)
    requires
        s.chains(),
    ensures
        s.enter_operator(operator, Some(outcome)) == s.calculate(outcome).enter_operator(
            operator,
            later,
        ),
{
}

/// A calculation whose result is not finite is recorded like any other, with
/// the word for its result; the result line shows the error marker, and the
/// first operand is reset so that typing can go on.
pub proof fn result_that_is_not_finite_shows_error(s: State, outcome: Outcome)
    requires
        !outcome.is_finite(),
    ensures
        s.calculate(outcome).result == error_text(),
        s.calculate(outcome).operand_1 == zero_text(),
        s.calculate(outcome).history == s.history.push(Entry::of(outcome, s.operator)),
        s.calculate(outcome).history.last().result == outcome.result,
{
}

/// A click on a line of the history brings that calculation back and
/// leaves the history as it is. The result line then shows the line's result
/// where that is finite, and the error marker where it is not: never one of
/// the words for a value that is not finite. An operand that is not finite
/// comes back as `"0"`.
pub proof fn load_brings_line_back(s: State, index: usize)
    requires
        index < s.history.len(),
    ensures
        s.load_from_history(index).history == s.history,
        s.load_from_history(index).operator == s.history[index as int].operator,
        s.load_from_history(index).operand_1 == as_operand(s.history[index as int].operand_1),
        s.load_from_history(index).operand_2 == as_operand(s.history[index as int].operand_2),
        s.load_from_history(index).result == if is_numeral(s.history[index as int].result) {
            s.history[index as int].result
        } else {
            error_text()
        },
        !s.load_from_history(index).editing_operand_1,
        !s.load_from_history(index).fresh_entry,
{
}

/// The result line never shows a word for a value that is not finite:
/// after any run of accepted messages it holds a numeral or the error
/// marker.
pub proof fn result_line_is_numeral_or_error(s: State, events: Seq<(Msg, Option<Outcome>)>)
    requires
        s.wf(),
        s.accepts_all(events),
    ensures
        is_numeral(s.run(events).result) || s.run(events).result == error_text(),
{
    run_keeps_well_formed(s, events);
}

/// A click on a line that the history does not have changes nothing.
pub proof fn load_out_of_range_changes_nothing(s: State, index: usize, outcome: Option<Outcome>)
    requires
        index >= s.history.len(),
    ensures
        s.load_from_history(index) == s,
        s.step(Msg::LoadFromHistory(index), outcome) == s,
{
}

/// A message leaves the history as it is, or adds one calculation at its
/// end: the one that the message had evaluated. No message takes a line
/// away or changes one.
pub proof fn step_extends_history(s: State, msg: Msg, outcome: Option<Outcome>)
    ensures
        s.step(msg, outcome).history == if s.evaluates(msg) {
            s.history.push(Entry::of(outcome.unwrap(), s.operator))
        } else {
            s.history
        },
{
}

/// The clear key keeps the history, the result and the operator.
pub proof fn clear_keeps_history(s: State)
    ensures
        s.clear().history == s.history,
        s.clear().result == s.result,
        s.clear().operator == s.operator,
{
}

/// The history is append-only: after any run of messages it is the history
/// from before the run, followed by the calculations carried out during the
/// run, oldest first.
pub proof fn history_is_append_only(s: State, events: Seq<(Msg, Option<Outcome>)>)
    ensures
        s.run(events).history == s.history + s.recorded(events),
    decreases events.len(),
{
    if events.len() > 0 {
        let earlier = events.drop_last();
        history_is_append_only(s, earlier);
        step_extends_history(s.run(earlier), events.last().0, events.last().1);
    }
}

/// A run records one calculation for each message that has the pending
/// expression evaluated.
proof fn lemma_recorded_len(s: State, events: Seq<(Msg, Option<Outcome>)>)
    ensures
        s.recorded(events).len() == s.calculations(events),
    decreases events.len(),
{
    if events.len() > 0 {
        lemma_recorded_len(s, events.drop_last());
    }
}

/// After a run in which the pending expression was evaluated `n` times, the
/// history is `n` lines longer. A calculator that was just switched on has
/// then exactly `n` lines.
pub proof fn history_counts_calculations(s: State, events: Seq<(Msg, Option<Outcome>)>)
    ensures
        s.run(events).history.len() == s.history.len() + s.calculations(events),
        State::initial().run(events).history.len() == State::initial().calculations(events),
{
    lemma_recorded_len(s, events);
    history_is_append_only(s, events);
    lemma_recorded_len(State::initial(), events);
    history_is_append_only(State::initial(), events);
}

} // verus!
