//! The state machine of a two-operand calculator: how key presses build up
//! an expression, when it is evaluated, and what the display shows.
//!
//! The calculator keeps numbers as text and does no arithmetic itself. Its
//! caller evaluates the pending expression when a key asks for it and hands
//! the outcome in; everything else, from the first digit to the history, is
//! decided here.

pub mod calculator;
pub mod evaluation;
pub mod history;
pub mod keyboard;
pub mod laws;
pub mod message;
pub mod numeral;
pub mod operand;
pub mod operator;
pub mod state;

pub use calculator::Calculator;
pub use evaluation::Evaluation;
pub use history::Calculation;
pub use keyboard::key_message;
pub use message::Msg;
pub use operand::Operand;
pub use operator::Operator;
