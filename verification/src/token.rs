//! The token alphabet that a `flow` invocation is made of.
//!
//! The host front end hands the transform a flat sequence of tokens; the
//! cursor walks that sequence.  Identifiers carry their text, literals their
//! value, and every piece of punctuation the grammar uses has a variant of
//! its own.

use vstd::prelude::*;

verus! {

/// Punctuation tokens of the `flow` grammar.
#[derive(Debug, Clone, Copy, PartialEq, Eq, Structural)]
pub enum Punct {
    /// `:` — introduces a declared type after a bound name.
    Colon,
    /// `;` — optional statement separator after an expression statement.
    Semi,
    /// `,` — separates call arguments.
    Comma,
    /// `<-` — binds the name on its left to the result of the expression on
    /// its right.
    LArrow,
    /// `(`
    LParen,
    /// `)`
    RParen,
    /// `_` — the wildcard pattern.
    Underscore,
}

/// One token of a `flow` invocation.
#[derive(Debug, PartialEq, Eq)]
pub enum Token {
    /// The `let` keyword, which opens a bind statement.
    KwLet,
    /// An identifier.
    Ident(String),
    /// An unsigned integer literal.
    Lit(u64),
    /// A punctuation token.
    Punct(Punct),
}

} // verus!
