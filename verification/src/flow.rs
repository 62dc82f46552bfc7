//! The statement classifier and the flow driver.
//!
//! The classifier consumes one statement's worth of tokens and produces one
//! statement, or signals end of input; the driver repeats it, accumulating
//! statements in source order.  Only a malformed `let` pattern is fatal;
//! every other non-match silently truncates the remaining input rather than
//! raising an error, and expansion goes on with the statements already
//! accepted.  That asymmetry is deliberate and pinned down by the mirrors
//! below.

use vstd::prelude::*;

use crate::ast::Block;
use crate::ast::FlowError;
use crate::ast::Pat;
use crate::cursor::Cursor;
use crate::cursor::spec_parse_expr;
use crate::cursor::spec_parse_ident;
use crate::cursor::spec_parse_pattern;
use crate::cursor::tok_at;
use crate::token::Punct;
use crate::token::Token;

verus! {

/// What classifying one statement yields: a statement and the position
/// after it, end of input, or the fatal pattern error — each with the
/// position the cursor stops at.
pub enum Parsed {
    Stmt(Block, int),
    End(int),
    Fatal(int),
}

/// Mirror of the classifier: one statement's worth of tokens.
pub open spec fn spec_parse_block(toks: Seq<Token>, pos: int) -> Parsed {
    if tok_at(toks, pos, Token::KwLet) {
        spec_parse_async(toks, pos + 1)
    } else if pos >= toks.len() {
        Parsed::End(pos)
    } else {
        spec_parse_expr_stmt(toks, pos)
    }
}

/// Mirror of a bind statement, entered just after `let`.  A pattern that is
/// not a single simple name is fatal; a missing type, arrow or right-hand
/// expression merely ends the input.
pub open spec fn spec_parse_async(toks: Seq<Token>, pos: int) -> Parsed {
    let (pat, pos1) = spec_parse_pattern(toks, pos);
    match pat {
        Some(Pat::Name(name)) => if tok_at(toks, pos1, Token::Punct(Punct::Colon)) {
            let (ty, pos2) = spec_parse_ident(toks, pos1 + 1);
            match ty {
                Some(t) => spec_parse_bound_expr(toks, pos2, name, Some(t)),
                None => Parsed::End(pos2),
            }
        } else {
            spec_parse_bound_expr(toks, pos1, name, None)
        },
        _ => Parsed::Fatal(pos1),
    }
}

/// Mirror of the tail of a bind statement: the left arrow and the
/// right-hand expression.
pub open spec fn spec_parse_bound_expr(
    toks: Seq<Token>,
    pos: int,
    name: String,
    ty: Option<String>,
) -> Parsed {
    if tok_at(toks, pos, Token::Punct(Punct::LArrow)) {
        let (e, p) = spec_parse_expr(toks, pos + 1);
        match e {
            Some(expr) => Parsed::Stmt(Block::Async(name, ty, expr), p),
            None => Parsed::End(p),
        }
    } else {
        Parsed::End(pos)
    }
}

/// Mirror of a non-bind statement: a bare identifier alone, else a full
/// expression with an optional trailing separator.
pub open spec fn spec_parse_expr_stmt(toks: Seq<Token>, pos: int) -> Parsed {
    let (id, pos1) = spec_parse_ident(toks, pos);
    match id {
        Some(name) => Parsed::Stmt(Block::Ident(name), pos1),
        None => {
            let (e, p) = spec_parse_expr(toks, pos);
            match e {
                Some(expr) => if tok_at(toks, p, Token::Punct(Punct::Semi)) {
                    Parsed::Stmt(Block::Expr(expr), p + 1)
                } else {
                    Parsed::Stmt(Block::Expr(expr), p)
                },
                None => Parsed::End(p),
            }
        },
    }
}

/// An accepted statement consumes at least one token and never runs past
/// the end of the input; end of input and the fatal error leave the cursor
/// in bounds too.  The driver's fold below rests on this progress fact.
pub proof fn lemma_parse_block_bounds(toks: Seq<Token>, pos: int)
    requires
        0 <= pos <= toks.len(),
    ensures
        match spec_parse_block(toks, pos) {
            Parsed::Stmt(_, p2) => pos < p2 <= toks.len(),
            Parsed::End(p2) => pos <= p2 <= toks.len(),
            Parsed::Fatal(p2) => pos <= p2 <= toks.len(),
        },
{
    if tok_at(toks, pos, Token::KwLet) {
        let (pat, pos1) = spec_parse_pattern(toks, pos + 1);
        match pat {
            Some(Pat::Name(_)) => {
                if tok_at(toks, pos1, Token::Punct(Punct::Colon)) {
                    let (ty, pos2) = spec_parse_ident(toks, pos1 + 1);
                    if ty is Some && tok_at(toks, pos2, Token::Punct(Punct::LArrow)) {
                        crate::cursor::lemma_parse_expr_bounds(toks, pos2 + 1);
                    }
                } else {
                    if tok_at(toks, pos1, Token::Punct(Punct::LArrow)) {
                        crate::cursor::lemma_parse_expr_bounds(toks, pos1 + 1);
                    }
                }
            },
            _ => {},
        }
    } else if pos < toks.len() {
        let (id, _pos1) = spec_parse_ident(toks, pos);
        if id is None {
            crate::cursor::lemma_parse_expr_bounds(toks, pos);
        }
    }
}

/// Whatever the classifier accepts is built from source expressions only.
pub proof fn lemma_parse_block_source(toks: Seq<Token>, pos: int)
    requires
        0 <= pos <= toks.len(),
    ensures
        match spec_parse_block(toks, pos) {
            Parsed::Stmt(b, _) => crate::ast::is_source_block(b),
            _ => true,
        },
{
    if tok_at(toks, pos, Token::KwLet) {
        let (pat, pos1) = spec_parse_pattern(toks, pos + 1);
        match pat {
            Some(Pat::Name(_)) => {
                if tok_at(toks, pos1, Token::Punct(Punct::Colon)) {
                    let (ty, pos2) = spec_parse_ident(toks, pos1 + 1);
                    if ty is Some && tok_at(toks, pos2, Token::Punct(Punct::LArrow)) {
                        crate::cursor::lemma_parse_expr_source(toks, pos2 + 1);
                    }
                } else {
                    if tok_at(toks, pos1, Token::Punct(Punct::LArrow)) {
                        crate::cursor::lemma_parse_expr_source(toks, pos1 + 1);
                    }
                }
            },
            _ => {},
        }
    } else if pos < toks.len() {
        let (id, _pos1) = spec_parse_ident(toks, pos);
        if id is None {
            crate::cursor::lemma_parse_expr_source(toks, pos);
        }
    }
}

/// Every statement a whole run accepts is built from source expressions
/// only: the code generator is the sole origin of continuation nodes.
pub proof fn lemma_run_source(toks: Seq<Token>, pos: int)
    requires
        0 <= pos <= toks.len(),
    ensures
        forall|i: int|
            0 <= i < spec_run(toks, pos).blocks.len() ==> crate::ast::is_source_block(
                #[trigger] spec_run(toks, pos).blocks[i],
            ),
    decreases toks.len() - pos,
{
    lemma_parse_block_bounds(toks, pos);
    lemma_parse_block_source(toks, pos);
    match spec_parse_block(toks, pos) {
        Parsed::Stmt(b, p2) => {
            lemma_run_source(toks, p2);
            let out = spec_run(toks, pos);
            let rest = spec_run(toks, p2);
            assert forall|i: int| 0 <= i < out.blocks.len() implies crate::ast::is_source_block(
                out.blocks[i],
            ) by {
                if i == 0 {
                    assert(out.blocks[0] == b);
                } else {
                    assert(out.blocks[i] == rest.blocks[i - 1]);
                }
            }
        },
        _ => {},
    }
}

/// What a whole run of the driver yields: the statements accepted in source
/// order, the position the cursor stops at, and whether the run ended in
/// the fatal pattern error.
pub struct Outcome {
    pub blocks: Seq<Block>,
    pub pos: int,
    pub fatal: bool,
}

/// Mirror of the driver: classify statements until end of input or the
/// fatal error, keeping source order.
pub open spec fn spec_run(toks: Seq<Token>, pos: int) -> Outcome
    decreases toks.len() - pos,
        when 0 <= pos <= toks.len()
        via spec_run_decreases
{
    match spec_parse_block(toks, pos) {
        Parsed::Stmt(b, p2) => {
            let rest = spec_run(toks, p2);
            Outcome { blocks: seq![b] + rest.blocks, pos: rest.pos, fatal: rest.fatal }
        },
        Parsed::End(p2) => Outcome { blocks: Seq::empty(), pos: p2, fatal: false },
        Parsed::Fatal(p2) => Outcome { blocks: Seq::empty(), pos: p2, fatal: true },
    }
}

#[via_fn]
proof fn spec_run_decreases(toks: Seq<Token>, pos: int) {
    lemma_parse_block_bounds(toks, pos);
}

/// The driver's state: `Begin` before construction has set the machine up,
/// `Accumulating` while statements are being collected, `Done` once end of
/// input was reached.  Construction itself performs the `Begin` →
/// `Accumulating` transition, so a `Flow` value is never observed in
/// `Begin`.
#[derive(Debug, Clone, Copy, PartialEq, Eq, Structural)]
pub enum State {
    Begin,
    Accumulating,
    Done,
}

/// The flow driver: a cursor over the invocation's tokens, the machine
/// state, and the statements accepted so far, in source order.
pub struct Flow {
    pub inner: Cursor,
    pub state: State,
    pub blocks: Vec<Block>,
}

impl Flow {
    pub open spec fn wf(&self) -> bool {
        self.inner.wf()
    }

    pub fn new(tokens: Vec<Token>) -> (f: Flow)
        ensures
            f.wf(),
            f.inner.tokens() == tokens@,
            f.inner.at() == 0,
            f.state == State::Accumulating,
            f.blocks@ == Seq::<Block>::empty(),
    {
        Flow { inner: Cursor::new(tokens), state: State::Accumulating, blocks: Vec::new() }
    }

    /// Classify the next statement: a statement, end of input, or the fatal
    /// pattern error, exactly as the mirror says.
    pub fn parse_block(&mut self) -> (r: Result<Option<Block>, FlowError>)
        requires
            old(self).wf(),
        ensures
            final(self).wf(),
            final(self).inner.tokens() == old(self).inner.tokens(),
            final(self).state == old(self).state,
            final(self).blocks@ == old(self).blocks@,
            old(self).inner.at() <= final(self).inner.at(),
            match r {
                Ok(Some(b)) => {
                    &&& spec_parse_block(old(self).inner.tokens(), old(self).inner.at())
                        == Parsed::Stmt(b, final(self).inner.at())
                    &&& old(self).inner.at() < final(self).inner.at()
                },
                Ok(None) => spec_parse_block(old(self).inner.tokens(), old(self).inner.at())
                    == Parsed::End(final(self).inner.at()),
                Err(e) => {
                    &&& spec_parse_block(old(self).inner.tokens(), old(self).inner.at())
                        == Parsed::Fatal(final(self).inner.at())
                    &&& e == FlowError::StructuralParse
                },
            },
    {
        if self.inner.eat_keyword_let() {
            self.parse_async()
        } else if self.inner.at_end() {
            Ok(None)
        } else {
            self.parse_expr_stmt()
        }
    }

    /// The simple name inside a parsed pattern.  Any other shape is the
    /// fatal structural error that aborts the whole expansion.
    fn get_ident_from_pat(pat: Pat) -> (r: Result<String, FlowError>)
        ensures
            match r {
                Ok(n) => pat == Pat::Name(n),
                Err(e) => {
                    &&& !(pat is Name)
                    &&& e == FlowError::StructuralParse
                },
            },
    {
        match pat {
            Pat::Name(n) => Ok(n),
            _ => Err(FlowError::StructuralParse),
        }
    }

    /// The bind-statement half of the classifier, entered after `let`.
    fn parse_async(&mut self) -> (r: Result<Option<Block>, FlowError>)
        requires
            old(self).wf(),
        ensures
            final(self).wf(),
            final(self).inner.tokens() == old(self).inner.tokens(),
            final(self).state == old(self).state,
            final(self).blocks@ == old(self).blocks@,
            old(self).inner.at() <= final(self).inner.at(),
            match r {
                Ok(Some(b)) => {
                    &&& spec_parse_async(old(self).inner.tokens(), old(self).inner.at())
                        == Parsed::Stmt(b, final(self).inner.at())
                    &&& old(self).inner.at() < final(self).inner.at()
                },
                Ok(None) => spec_parse_async(old(self).inner.tokens(), old(self).inner.at())
                    == Parsed::End(final(self).inner.at()),
                Err(e) => {
                    &&& spec_parse_async(old(self).inner.tokens(), old(self).inner.at())
                        == Parsed::Fatal(final(self).inner.at())
                    &&& e == FlowError::StructuralParse
                },
            },
    {
        let name = match self.inner.parse_pattern() {
            Some(pat) => match Self::get_ident_from_pat(pat) {
                Ok(n) => n,
                Err(e) => {
                    return Err(e);
                },
            },
            None => {
                return Err(FlowError::StructuralParse);
            },
        };
        let ty = if self.inner.eat_punct(Punct::Colon) {
            match self.inner.parse_ty() {
                Some(t) => Some(t),
                None => {
                    return Ok(None);
                },
            }
        } else {
            None
        };
        if !self.inner.eat_punct(Punct::LArrow) {
            return Ok(None);
        }
        match self.inner.parse_expr() {
            Some(e) => Ok(Some(Block::Async(name, ty, e))),
            None => Ok(None),
        }
    }

    /// The non-bind half of the classifier.
    fn parse_expr_stmt(&mut self) -> (r: Result<Option<Block>, FlowError>)
        requires
            old(self).wf(),
        ensures
            final(self).wf(),
            final(self).inner.tokens() == old(self).inner.tokens(),
            final(self).state == old(self).state,
            final(self).blocks@ == old(self).blocks@,
            old(self).inner.at() <= final(self).inner.at(),
            r is Ok,
            match r {
                Ok(Some(b)) => {
                    &&& spec_parse_expr_stmt(old(self).inner.tokens(), old(self).inner.at())
                        == Parsed::Stmt(b, final(self).inner.at())
                    &&& old(self).inner.at() < final(self).inner.at()
                },
                Ok(None) => spec_parse_expr_stmt(old(self).inner.tokens(), old(self).inner.at())
                    == Parsed::End(final(self).inner.at()),
                Err(_) => false,
            },
    {
        match self.inner.parse_ident() {
            Some(name) => {
                return Ok(Some(Block::Ident(name)));
            },
            None => {},
        }
        match self.inner.parse_expr() {
            Some(e) => {
                self.inner.eat_punct(Punct::Semi);
                Ok(Some(Block::Expr(e)))
            },
            None => Ok(None),
        }
    }

    /// Run the classifier to the end of the input, appending each accepted
    /// statement, in source order; stop with the fatal error if a `let`
    /// pattern is not a single simple name.
    pub fn parse(&mut self) -> (r: Result<(), FlowError>)
        requires
            old(self).wf(),
        ensures
            final(self).wf(),
            final(self).inner.tokens() == old(self).inner.tokens(),
            ({
                let out = spec_run(old(self).inner.tokens(), old(self).inner.at());
                &&& final(self).blocks@ == old(self).blocks@ + out.blocks
                &&& final(self).inner.at() == out.pos
                &&& r == if out.fatal {
                    Err::<(), FlowError>(FlowError::StructuralParse)
                } else {
                    Ok::<(), FlowError>(())
                }
                &&& final(self).state == if out.fatal {
                    old(self).state
                } else {
                    State::Done
                }
            }),
        decreases old(self).inner.toks@.len() - old(self).inner.pos,
    {
        match self.parse_block() {
            Err(e) => Err(e),
            Ok(None) => {
                self.state = State::Done;
                Ok(())
            },
            Ok(Some(b)) => {
                let ghost toks: Seq<Token> = old(self).inner.tokens();
                let ghost p0: int = old(self).inner.at();
                self.blocks.push(b);
                let ghost p1: int = self.inner.at();
                let r = self.parse();
                proof {
                    let out = spec_run(toks, p0);
                    let rest = spec_run(toks, p1);
                    assert(out.blocks == seq![b] + rest.blocks);
                    assert(old(self).blocks@.push(b) =~= old(self).blocks@ + seq![b]);
                    assert((old(self).blocks@ + seq![b]) + rest.blocks
                        =~= old(self).blocks@ + (seq![b] + rest.blocks));
                }
                r
            },
        }
    }

    /// The statements accepted so far, in source order.
    pub fn blocks(&self) -> (r: &Vec<Block>)
        ensures
            r@ == self.blocks@,
    {
        &self.blocks
    }

    /// The driver's machine state.
    pub fn state(&self) -> (r: State)
        ensures
            r == self.state,
    {
        self.state
    }
}

} // verus!
