//! Which key of a keyboard stands for which message.
//!
//! Keys are named by their key code; some mean one thing with the shift key
//! held and another without it.

use vstd::prelude::*;
use crate::message::Msg;
use crate::operator::Operator;

verus! {

/// The key code of `0` in the top row; the other digits follow it.
pub const TOP_ROW_0: u32 = 48;

/// The key code of `0` on the number pad; the other digits follow it.
pub const NUM_PAD_0: u32 = 96;

/// The key code of backspace.
pub const KEY_BACKSPACE: u32 = 8;

/// The key code of enter.
pub const KEY_ENTER: u32 = 13;

/// The key code of delete.
pub const KEY_DELETE: u32 = 46;

/// The key code of `*` on the number pad.
pub const NUM_PAD_MULTIPLY: u32 = 106;

/// The key code of `+` on the number pad.
pub const NUM_PAD_ADD: u32 = 107;

/// The key code of `-` on the number pad.
pub const NUM_PAD_SUBTRACT: u32 = 109;

/// The key code of the decimal point on the number pad.
pub const NUM_PAD_DECIMAL: u32 = 110;

/// The key code of `/` on the number pad.
pub const NUM_PAD_DIVIDE: u32 = 111;

/// The key code of the key that holds `=` and, shifted, `+`.
pub const KEY_EQUAL: u32 = 187;

/// The key code of the key that holds `-`.
pub const KEY_MINUS: u32 = 189;

/// The key code of the key that holds `.`.
pub const KEY_PERIOD: u32 = 190;

/// The key code of the key that holds `/`.
pub const KEY_SLASH: u32 = 191;

/// The digit that a key stands for, if it is a digit key: one of the top
/// row without shift, or one of the number pad.
pub open spec fn key_digit(key_code: u32, shift: bool) -> Option<u8> {
    if TOP_ROW_0 <= key_code <= TOP_ROW_0 + 9 && !shift {
        Some((key_code - TOP_ROW_0) as u8)
    } else if NUM_PAD_0 <= key_code <= NUM_PAD_0 + 9 {
        Some((key_code - NUM_PAD_0) as u8)
    } else {
        None
    }
}

/// The operator that a key stands for, if it is an operator key.
pub open spec fn key_operator(key_code: u32, shift: bool) -> Option<Operator> {
    if key_code == NUM_PAD_MULTIPLY || (key_code == TOP_ROW_0 + 8 && shift) {
        Some(Operator::Mul)
    } else if key_code == NUM_PAD_DIVIDE || (key_code == KEY_SLASH && !shift) {
        Some(Operator::Div)
    } else if key_code == NUM_PAD_ADD || (key_code == KEY_EQUAL && shift) {
        Some(Operator::Add)
    } else if key_code == NUM_PAD_SUBTRACT || (key_code == KEY_MINUS && !shift) {
        Some(Operator::Sub)
    } else {
        None
    }
}

/// The message that a key stands for, if it stands for one.
pub open spec fn key_meaning(key_code: u32, shift: bool) -> Option<Msg> {
    if let Some(d) = key_digit(key_code, shift) {
        Some(Msg::ClickNumber(d))
    } else if let Some(operator) = key_operator(key_code, shift) {
        Some(Msg::ClickOperator(operator))
    } else if key_code == NUM_PAD_DECIMAL || (key_code == KEY_PERIOD && !shift) {
        Some(Msg::ClickDot)
    } else if key_code == KEY_ENTER || (key_code == KEY_EQUAL && !shift) {
        Some(Msg::Calculate)
    } else if key_code == KEY_BACKSPACE {
        Some(Msg::Backspace)
    } else if key_code == KEY_DELETE {
        Some(Msg::Clear)
    } else {
        None
    }
}

/// The message that the key with code `key_code` stands for, with the shift
/// key held or not. No key stands for a click on the history.
pub fn key_message(key_code: u32, shift: bool) -> (msg: Option<Msg>)
    ensures
        msg == key_meaning(key_code, shift),
        msg matches Some(m) ==> m.wf() && !(m is LoadFromHistory),
{
    if TOP_ROW_0 <= key_code && key_code <= TOP_ROW_0 + 9 && !shift {
        Some(Msg::ClickNumber((key_code - TOP_ROW_0) as u8))
    } else if NUM_PAD_0 <= key_code && key_code <= NUM_PAD_0 + 9 {
        Some(Msg::ClickNumber((key_code - NUM_PAD_0) as u8))
    } else if key_code == NUM_PAD_MULTIPLY || (key_code == TOP_ROW_0 + 8 && shift) {
        Some(Msg::ClickOperator(Operator::Mul))
    } else if key_code == NUM_PAD_DIVIDE || (key_code == KEY_SLASH && !shift) {
        Some(Msg::ClickOperator(Operator::Div))
    } else if key_code == NUM_PAD_ADD || (key_code == KEY_EQUAL && shift) {
        Some(Msg::ClickOperator(Operator::Add))
    } else if key_code == NUM_PAD_SUBTRACT || (key_code == KEY_MINUS && !shift) {
        Some(Msg::ClickOperator(Operator::Sub))
    } else if key_code == NUM_PAD_DECIMAL || (key_code == KEY_PERIOD && !shift) {
        Some(Msg::ClickDot)
    } else if key_code == KEY_ENTER || (key_code == KEY_EQUAL && !shift) {
        Some(Msg::Calculate)
    } else if key_code == KEY_BACKSPACE {
        Some(Msg::Backspace)
    } else if key_code == KEY_DELETE {
        Some(Msg::Clear)
    } else {
        None
    }
}

} // verus!
