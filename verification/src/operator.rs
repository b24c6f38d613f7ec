//! The four arithmetic operators and how they are written on the display.

use vstd::prelude::*;

verus! {

/// A pending arithmetic operator.
#[derive(Clone, Copy, Debug, PartialEq, Eq, Structural)]
pub enum Operator {
    Mul,
    Div,
    Add,
    Sub,
}

impl Operator {
    /// The operator as it stands between two operands, a space on either side.
    pub open spec fn spec_symbol(self) -> Seq<char> {
        seq![' ', self.spec_glyph(), ' ']
    }

    /// The single character that names the operator.
    pub open spec fn spec_glyph(self) -> char {
        match self {
            Operator::Mul => '*',
            Operator::Div => '/',
            Operator::Add => '+',
            Operator::Sub => '-',
        }
    }

    /// The operator as it is written on its key: `"+"` for `Add`.
    pub fn glyph(&self) -> (text: &'static str)
        ensures
            text@ == seq![self.spec_glyph()],
    {
        proof {
            reveal_strlit("*");
            reveal_strlit("/");
            reveal_strlit("+");
            reveal_strlit("-");
        }
        let text = match self {
            Operator::Mul => "*",
            Operator::Div => "/",
            Operator::Add => "+",
            Operator::Sub => "-",
        };
        text
    }

    /// The operator as it stands between two operands: `" + "` for `Add`.
    pub fn symbol(&self) -> (text: &'static str)
        ensures
            text@ == self.spec_symbol(),
    {
        proof {
            reveal_strlit(" * ");
            reveal_strlit(" / ");
            reveal_strlit(" + ");
            reveal_strlit(" - ");
        }
        let text = match self {
            Operator::Mul => " * ",
            Operator::Div => " / ",
            Operator::Add => " + ",
            Operator::Sub => " - ",
        };
        text
    }
}

} // verus!
