//! The lexical tokens a path expression is scanned from, and the choice of
//! which join operators the scan accepts.

use vstd::prelude::*;
use crate::model::JoinOp;

verus! {

/// One token as the host lexer supplies it.
#[derive(Debug, PartialEq, Eq)]
pub enum Token {
    /// An identifier.
    Ident(String),
    /// A single punctuation character.
    Punct(char),
    /// A literal, held as its source text: a string literal keeps its quotes.
    Literal(String),
    /// The tokens between a pair of matching delimiters.
    Group(Vec<Token>),
}

/// Which join operators a scan accepts.
#[derive(Clone, Copy, Debug, PartialEq, Eq, Structural)]
pub struct Syntax {
    /// Whether `~` is accepted between field segments. Where it is not, `~` is
    /// an unexpected token like any other punctuation.
    pub optional_chain: bool,
}

/// The join operator that the punctuation character `c` stands for, if any.
pub open spec fn join_of(c: char, syntax: Syntax) -> Option<JoinOp> {
    if c == '.' {
        Some(JoinOp::Required)
    } else if c == '~' && syntax.optional_chain {
        Some(JoinOp::Optional)
    } else {
        None
    }
}

/// The join operator that the punctuation character `c` stands for, if any.
pub fn join_operator(c: char, syntax: Syntax) -> (op: Option<JoinOp>)
    ensures
        op == join_of(c, syntax),
{
    if c == '.' {
        Some(JoinOp::Required)
    } else if c == '~' && syntax.optional_chain {
        Some(JoinOp::Optional)
    } else {
        None
    }
}

} // verus!
