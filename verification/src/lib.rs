//! A verified front end for a small `flow` notation: a sequence of bind
//! statements (`let name <- expr`) and plain expression statements is
//! rewritten into one nested continuation chain, each bind becoming an
//! `and_then` call whose closure holds everything that follows.

use vstd::prelude::*;

pub mod ast;
pub mod codegen;
pub mod cursor;
pub mod flow;
pub mod laws;
pub mod token;

pub use crate::ast::Args;
pub use crate::ast::Block;
pub use crate::ast::Expr;
pub use crate::ast::FlowError;
pub use crate::ast::Pat;
pub use crate::codegen::spec_generate;
pub use crate::flow::Flow;
pub use crate::flow::State;
pub use crate::flow::spec_run;
pub use crate::token::Punct;
pub use crate::token::Token;

verus! {

/// What expanding an invocation yields: the generated expression for the
/// statements the run accepted, or the fatal error when a `let` pattern was
/// not a single simple name — in which case no partial output is produced.
pub open spec fn spec_expand(toks: Seq<Token>) -> Result<Expr, FlowError> {
    let out = crate::flow::spec_run(toks, 0);
    if out.fatal {
        Err(FlowError::StructuralParse)
    } else {
        Ok(crate::codegen::spec_generate(out.blocks))
    }
}

/// The pure transform entry point: parse the invocation's tokens into a
/// statement list and fold that list into one nested continuation chain.
/// An empty invocation produces the empty block, not an error.
pub fn expand(tokens: Vec<Token>) -> (r: Result<Expr, FlowError>)
    ensures
        r == spec_expand(tokens@),
        tokens@.len() == 0 ==> r == Ok::<Expr, FlowError>(Expr::Unit),
{
    let mut flow = Flow::new(tokens);
    match flow.parse() {
        Ok(()) => Ok(flow.code()),
        Err(e) => Err(e),
    }
}

} // verus!
