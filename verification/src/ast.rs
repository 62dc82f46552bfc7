//! The data model of the transform: patterns, the expression tree that both
//! the parsed input and the generated output are made of, and the statement
//! variants that the classifier produces.

use vstd::prelude::*;

verus! {

/// A pattern, as it may appear between `let` and `<-`.
///
/// Only a single simple name is accepted by the classifier; the other shapes
/// exist so that the fatal case can be told apart and reported.  Since any
/// shape but a name aborts the whole expansion, the cursor does not consume
/// past the opening token of a compound pattern.
#[derive(Debug, Clone, PartialEq, Eq)]
pub enum Pat {
    /// A single simple name.
    Name(String),
    /// A tuple (or other parenthesised) pattern.
    Tuple,
    /// The wildcard pattern `_`.
    Wild,
}

/// An expression tree.
///
/// The first four variants are produced by the cursor when parsing source
/// expressions; the last four are produced only by the code generator when
/// it builds the continuation chain.
#[derive(Debug, PartialEq, Eq)]
pub enum Expr {
    /// A bare identifier.
    Var(String),
    /// An unsigned integer literal.
    Lit(u64),
    /// A call `callee(arg, ...)`.
    Call(String, Args),
    /// A parenthesised expression `(e)`.
    Paren(Box<Expr>),
    /// The empty block `{}`: the code generator's initial accumulator.
    Unit,
    /// A block `{ e }` holding a single expression.
    BlockOne(Box<Expr>),
    /// A block `{ e1; e2 }` evaluating `e1`, then `e2`.
    Seq2(Box<Expr>, Box<Expr>),
    /// The continuation boundary `e.and_then(move |name| body)`: the
    /// sequencing combinator of the asynchronous value type, called on the
    /// antecedent `e` with a closure that binds `name`.
    AndThen(Box<Expr>, String, Box<Expr>),
    /// The result constructor `Async::Ok(e)` wrapped around a closure body.
    Wrap(Box<Expr>),
}

/// The arguments of a call, in source order.
#[derive(Debug, PartialEq, Eq)]
pub enum Args {
    Nil,
    Cons(Box<Expr>, Box<Args>),
}

/// One statement of a `flow` body.
///
/// Statements are created one at a time by the classifier, appended in
/// source order by the driver, and consumed destructively, in reverse, by
/// the code generator.
#[derive(Debug, PartialEq, Eq)]
pub enum Block {
    /// A bind statement `let name [: ty] <- expr`: `name` stands for the
    /// result of `expr` in every statement that follows.  The declared type
    /// is recorded but not enforced at this layer.
    Async(String, Option<String>, Expr),
    /// A standalone expression, evaluated for its place in the sequence.
    Expr(Expr),
    /// A single identifier on its own, denoting "return this value" at the
    /// tail of the sequence.
    Ident(String),
}

/// The one fatal error of the transform.
#[derive(Debug, Clone, Copy, PartialEq, Eq, Structural)]
pub enum FlowError {
    /// A `let` pattern that does not reduce to a single simple name.  The
    /// whole expansion is abandoned; no partial output is produced.
    StructuralParse,
}

/// How many `and_then` boundaries are nested along the continuation spine of
/// an expression: an `and_then` counts one and the search continues in its
/// closure body; result wrappers and blocks are looked through; everything
/// else ends the spine.
pub open spec fn and_then_depth(e: Expr) -> nat
    decreases e,
{
    match e {
        Expr::AndThen(_, _, body) => 1 + and_then_depth(*body),
        Expr::Wrap(inner) => and_then_depth(*inner),
        Expr::BlockOne(inner) => and_then_depth(*inner),
        _ => 0,
    }
}

/// The innermost expression of a continuation spine: what is left after
/// descending through every `and_then` closure body and result wrapper.
pub open spec fn result_core(e: Expr) -> Expr
    decreases e,
{
    match e {
        Expr::AndThen(_, _, body) => result_core(*body),
        Expr::Wrap(inner) => result_core(*inner),
        _ => e,
    }
}

/// An expression as the cursor parses it: only source forms, none of the
/// nodes the code generator introduces.
pub open spec fn is_source_expr(e: Expr) -> bool
    decreases e,
{
    match e {
        Expr::Var(_) => true,
        Expr::Lit(_) => true,
        Expr::Call(_, args) => is_source_args(args),
        Expr::Paren(inner) => is_source_expr(*inner),
        _ => false,
    }
}

/// Arguments made of source expressions only.
pub open spec fn is_source_args(a: Args) -> bool
    decreases a,
{
    match a {
        Args::Nil => true,
        Args::Cons(e, rest) => is_source_expr(*e) && is_source_args(*rest),
    }
}

/// A statement as the classifier produces it: its expressions are source
/// expressions.
pub open spec fn is_source_block(b: Block) -> bool {
    match b {
        Block::Async(_, _, e) => is_source_expr(e),
        Block::Expr(e) => is_source_expr(e),
        Block::Ident(_) => true,
    }
}

/// A source expression holds no continuation boundary.
pub proof fn lemma_source_expr_depth(e: Expr)
    requires
        is_source_expr(e),
    ensures
        and_then_depth(e) == 0,
{
}

} // verus!
