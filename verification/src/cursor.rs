//! The token cursor: a thin wrapper over the token sequence that the
//! classifier drives.  It offers "consume this token if it is next",
//! end-of-input detection, and the small sub-parsers the grammar needs:
//! identifiers, patterns, declared types, and expressions.
//!
//! Each executable method is specified against a specification-level mirror
//! of the grammar, so its contract pins down both the value parsed and the
//! exact cursor movement, on every input.

use vstd::prelude::*;

use crate::ast::Args;
use crate::ast::Expr;
use crate::ast::Pat;
use crate::token::Punct;
use crate::token::Token;

verus! {

/// True when `toks[pos]` exists and is exactly `t`.
pub open spec fn tok_at(toks: Seq<Token>, pos: int, t: Token) -> bool {
    0 <= pos < toks.len() && toks[pos] == t
}

/// Mirror of identifier parsing: an identifier token yields its text and
/// advances by one; anything else leaves the cursor where it was.
pub open spec fn spec_parse_ident(toks: Seq<Token>, pos: int) -> (Option<String>, int) {
    if 0 <= pos < toks.len() {
        match toks[pos] {
            Token::Ident(s) => (Some(s), pos + 1),
            _ => (None, pos),
        }
    } else {
        (None, pos)
    }
}

/// Mirror of pattern parsing.  A compound pattern is fatal to the whole
/// expansion, so only its opening token is consumed.
pub open spec fn spec_parse_pattern(toks: Seq<Token>, pos: int) -> (Option<Pat>, int) {
    if 0 <= pos < toks.len() {
        match toks[pos] {
            Token::Ident(s) => (Some(Pat::Name(s)), pos + 1),
            Token::Punct(Punct::LParen) => (Some(Pat::Tuple), pos + 1),
            Token::Punct(Punct::Underscore) => (Some(Pat::Wild), pos + 1),
            _ => (None, pos),
        }
    } else {
        (None, pos)
    }
}

/// Mirror of expression parsing.
///
/// ```text
/// expr := IDENT "(" args ")" | IDENT | LIT | "(" expr ")"
/// ```
pub open spec fn spec_parse_expr(toks: Seq<Token>, pos: int) -> (Option<Expr>, int)
    decreases toks.len() - pos, 0int,
        when 0 <= pos <= toks.len()
{
    if pos < toks.len() {
        match toks[pos] {
            Token::Ident(s) => {
                if tok_at(toks, pos + 1, Token::Punct(Punct::LParen)) {
                    let (r, p) = spec_parse_call_args(toks, pos + 2);
                    match r {
                        Some(args) => (Some(Expr::Call(s, args)), p),
                        None => (None, p),
                    }
                } else {
                    (Some(Expr::Var(s)), pos + 1)
                }
            },
            Token::Lit(n) => (Some(Expr::Lit(n)), pos + 1),
            Token::Punct(Punct::LParen) => {
                let (r, p) = spec_parse_expr(toks, pos + 1);
                match r {
                    Some(e) => if tok_at(toks, p, Token::Punct(Punct::RParen)) {
                        (Some(Expr::Paren(Box::new(e))), p + 1)
                    } else {
                        (None, p)
                    },
                    None => (None, p),
                }
            },
            _ => (None, pos),
        }
    } else {
        (None, pos)
    }
}

/// Mirror of a call's argument list, entered just after the opening
/// parenthesis; consumes through the closing parenthesis.
///
/// ```text
/// args := ")" | expr ("," expr)* ")"
/// ```
pub open spec fn spec_parse_call_args(toks: Seq<Token>, pos: int) -> (Option<Args>, int)
    decreases toks.len() - pos, 2int,
        when 0 <= pos <= toks.len()
{
    if tok_at(toks, pos, Token::Punct(Punct::RParen)) {
        (Some(Args::Nil), pos + 1)
    } else {
        spec_parse_args_rest(toks, pos)
    }
}

/// Mirror of a non-empty comma-separated argument list, up to and including
/// the closing parenthesis.
pub open spec fn spec_parse_args_rest(toks: Seq<Token>, pos: int) -> (Option<Args>, int)
    decreases toks.len() - pos, 1int,
        when 0 <= pos <= toks.len()
{
    let (r, p) = spec_parse_expr(toks, pos);
    match r {
        None => (None, p),
        Some(e) => if tok_at(toks, p, Token::Punct(Punct::Comma)) && pos <= p {
            // `pos <= p` always holds (parsing never rewinds); it is spelled
            // out so that the recursion visibly consumes tokens.
            let (r2, p2) = spec_parse_args_rest(toks, p + 1);
            match r2 {
                Some(rest) => (Some(Args::Cons(Box::new(e), Box::new(rest))), p2),
                None => (None, p2),
            }
        } else if tok_at(toks, p, Token::Punct(Punct::RParen)) {
            (Some(Args::Cons(Box::new(e), Box::new(Args::Nil))), p + 1)
        } else {
            (None, p)
        },
    }
}

/// Expression parsing never rewinds and never runs past the end of the
/// input, and success consumes at least one token.
pub proof fn lemma_parse_expr_bounds(toks: Seq<Token>, pos: int)
    requires
        0 <= pos <= toks.len(),
    ensures
        ({
            let (r, p) = spec_parse_expr(toks, pos);
            &&& pos <= p <= toks.len()
            &&& (r is Some ==> pos < p)
        }),
    decreases toks.len() - pos, 0int,
{
    if pos < toks.len() {
        match toks[pos] {
            Token::Ident(_) => {
                if tok_at(toks, pos + 1, Token::Punct(Punct::LParen)) {
                    lemma_parse_call_args_bounds(toks, pos + 2);
                }
            },
            Token::Punct(Punct::LParen) => {
                lemma_parse_expr_bounds(toks, pos + 1);
            },
            _ => {},
        }
    }
}

/// The same bounds for an argument list entered after the opening
/// parenthesis.
pub proof fn lemma_parse_call_args_bounds(toks: Seq<Token>, pos: int)
    requires
        0 <= pos <= toks.len(),
    ensures
        ({
            let (r, p) = spec_parse_call_args(toks, pos);
            &&& pos <= p <= toks.len()
            &&& (r is Some ==> pos < p)
        }),
    decreases toks.len() - pos, 2int,
{
    if !tok_at(toks, pos, Token::Punct(Punct::RParen)) {
        lemma_parse_args_rest_bounds(toks, pos);
    }
}

/// The same bounds for a non-empty comma-separated argument list.
pub proof fn lemma_parse_args_rest_bounds(toks: Seq<Token>, pos: int)
    requires
        0 <= pos <= toks.len(),
    ensures
        ({
            let (r, p) = spec_parse_args_rest(toks, pos);
            &&& pos <= p <= toks.len()
            &&& (r is Some ==> pos < p)
        }),
    decreases toks.len() - pos, 1int,
{
    lemma_parse_expr_bounds(toks, pos);
    let (r, p) = spec_parse_expr(toks, pos);
    if r is Some && tok_at(toks, p, Token::Punct(Punct::Comma)) {
        lemma_parse_args_rest_bounds(toks, p + 1);
    }
}

/// Whatever the expression parser accepts is a source expression: it holds
/// none of the nodes the code generator introduces.
pub proof fn lemma_parse_expr_source(toks: Seq<Token>, pos: int)
    requires
        0 <= pos <= toks.len(),
    ensures
        ({
            let (r, p) = spec_parse_expr(toks, pos);
            r matches Some(e) ==> crate::ast::is_source_expr(e)
        }),
    decreases toks.len() - pos, 0int,
{
    if pos < toks.len() {
        match toks[pos] {
            Token::Ident(_) => {
                if tok_at(toks, pos + 1, Token::Punct(Punct::LParen)) {
                    lemma_parse_call_args_source(toks, pos + 2);
                }
            },
            Token::Punct(Punct::LParen) => {
                lemma_parse_expr_source(toks, pos + 1);
            },
            _ => {},
        }
    }
}

/// The same purity for an argument list entered after the opening
/// parenthesis.
pub proof fn lemma_parse_call_args_source(toks: Seq<Token>, pos: int)
    requires
        0 <= pos <= toks.len(),
    ensures
        ({
            let (r, p) = spec_parse_call_args(toks, pos);
            r matches Some(args) ==> crate::ast::is_source_args(args)
        }),
    decreases toks.len() - pos, 2int,
{
    if !tok_at(toks, pos, Token::Punct(Punct::RParen)) {
        lemma_parse_args_rest_source(toks, pos);
    }
}

/// The same purity for a non-empty comma-separated argument list.
pub proof fn lemma_parse_args_rest_source(toks: Seq<Token>, pos: int)
    requires
        0 <= pos <= toks.len(),
    ensures
        ({
            let (r, p) = spec_parse_args_rest(toks, pos);
            r matches Some(args) ==> crate::ast::is_source_args(args)
        }),
    decreases toks.len() - pos, 1int,
{
    lemma_parse_expr_bounds(toks, pos);
    lemma_parse_expr_source(toks, pos);
    assert(crate::ast::is_source_args(Args::Nil));
    let (r, p) = spec_parse_expr(toks, pos);
    if r is Some && tok_at(toks, p, Token::Punct(Punct::Comma)) {
        lemma_parse_args_rest_source(toks, p + 1);
    }
}

/// The token cursor.  `pos` only ever moves forward, one consumed token at
/// a time.
pub struct Cursor {
    pub toks: Vec<Token>,
    pub pos: usize,
}

impl Cursor {
    /// The cursor never stands past the end of its token sequence.
    pub open spec fn wf(&self) -> bool {
        self.pos <= self.toks.len()
    }

    /// The tokens the cursor walks.
    pub open spec fn tokens(&self) -> Seq<Token> {
        self.toks@
    }

    /// The current position, as a mathematical integer.
    pub open spec fn at(&self) -> int {
        self.pos as int
    }

    pub fn new(toks: Vec<Token>) -> (c: Cursor)
        ensures
            c.wf(),
            c.tokens() == toks@,
            c.at() == 0,
    {
        Cursor { toks, pos: 0 }
    }

    /// Whether the whole input has been consumed.
    pub fn at_end(&self) -> (r: bool)
        requires
            self.wf(),
        ensures
            r == (self.at() == self.tokens().len()),
    {
        self.pos == self.toks.len()
    }

    /// Consume the `let` keyword if it is next.
    pub fn eat_keyword_let(&mut self) -> (r: bool)
        requires
            old(self).wf(),
        ensures
            final(self).wf(),
            final(self).tokens() == old(self).tokens(),
            r == tok_at(old(self).tokens(), old(self).at(), Token::KwLet),
            final(self).at() == old(self).at() + if r { 1int } else { 0int },
    {
        if self.pos < self.toks.len() {
            match &self.toks[self.pos] {
                Token::KwLet => {
                    self.pos = self.pos + 1;
                    true
                },
                _ => false,
            }
        } else {
            false
        }
    }

    /// Consume the punctuation token `k` if it is next.
    pub fn eat_punct(&mut self, k: Punct) -> (r: bool)
        requires
            old(self).wf(),
        ensures
            final(self).wf(),
            final(self).tokens() == old(self).tokens(),
            r == tok_at(old(self).tokens(), old(self).at(), Token::Punct(k)),
            final(self).at() == old(self).at() + if r { 1int } else { 0int },
    {
        if self.pos < self.toks.len() {
            match &self.toks[self.pos] {
                Token::Punct(p) => {
                    if *p == k {
                        self.pos = self.pos + 1;
                        true
                    } else {
                        false
                    }
                },
                _ => false,
            }
        } else {
            false
        }
    }

    /// Parse a single identifier, consuming nothing on failure.
    pub fn parse_ident(&mut self) -> (r: Option<String>)
        requires
            old(self).wf(),
        ensures
            final(self).wf(),
            final(self).tokens() == old(self).tokens(),
            (r, final(self).at()) == spec_parse_ident(old(self).tokens(), old(self).at()),
            old(self).at() <= final(self).at(),
    {
        if self.pos < self.toks.len() {
            match &self.toks[self.pos] {
                Token::Ident(s) => {
                    let name = s.clone();
                    self.pos = self.pos + 1;
                    Some(name)
                },
                _ => None,
            }
        } else {
            None
        }
    }

    /// Parse a pattern, consuming nothing on failure.
    pub fn parse_pattern(&mut self) -> (r: Option<Pat>)
        requires
            old(self).wf(),
        ensures
            final(self).wf(),
            final(self).tokens() == old(self).tokens(),
            (r, final(self).at()) == spec_parse_pattern(old(self).tokens(), old(self).at()),
            old(self).at() <= final(self).at(),
    {
        if self.pos < self.toks.len() {
            match &self.toks[self.pos] {
                Token::Ident(s) => {
                    let name = s.clone();
                    self.pos = self.pos + 1;
                    Some(Pat::Name(name))
                },
                Token::Punct(Punct::LParen) => {
                    self.pos = self.pos + 1;
                    Some(Pat::Tuple)
                },
                Token::Punct(Punct::Underscore) => {
                    self.pos = self.pos + 1;
                    Some(Pat::Wild)
                },
                _ => None,
            }
        } else {
            None
        }
    }

    /// Parse the declared type that may follow a colon in a bind statement.
    /// Types of this grammar are single identifiers; the declaration is
    /// informational only and nothing here enforces it.
    pub fn parse_ty(&mut self) -> (r: Option<String>)
        requires
            old(self).wf(),
        ensures
            final(self).wf(),
            final(self).tokens() == old(self).tokens(),
            (r, final(self).at()) == spec_parse_ident(old(self).tokens(), old(self).at()),
            old(self).at() <= final(self).at(),
    {
        self.parse_ident()
    }

    /// Parse one expression.  On failure the cursor may stand anywhere
    /// inside the partial expression it gave up on; the mirror says exactly
    /// where.
    pub fn parse_expr(&mut self) -> (r: Option<Expr>)
        requires
            old(self).wf(),
        ensures
            final(self).wf(),
            final(self).tokens() == old(self).tokens(),
            (r, final(self).at()) == spec_parse_expr(old(self).tokens(), old(self).at()),
            old(self).at() <= final(self).at(),
            r is Some ==> old(self).at() < final(self).at(),
        decreases old(self).toks@.len() - old(self).pos, 0int,
    {
        if self.pos < self.toks.len() {
            match &self.toks[self.pos] {
                Token::Ident(s) => {
                    let name = s.clone();
                    self.pos = self.pos + 1;
                    if self.eat_punct(Punct::LParen) {
                        match self.parse_call_args() {
                            Some(args) => Some(Expr::Call(name, args)),
                            None => None,
                        }
                    } else {
                        Some(Expr::Var(name))
                    }
                },
                Token::Lit(n) => {
                    let value = *n;
                    self.pos = self.pos + 1;
                    Some(Expr::Lit(value))
                },
                Token::Punct(Punct::LParen) => {
                    self.pos = self.pos + 1;
                    match self.parse_expr() {
                        Some(e) => {
                            if self.eat_punct(Punct::RParen) {
                                Some(Expr::Paren(Box::new(e)))
                            } else {
                                None
                            }
                        },
                        None => None,
                    }
                },
                _ => None,
            }
        } else {
            None
        }
    }

    /// Parse a call's argument list, entered just after the opening
    /// parenthesis; consumes through the closing parenthesis on success.
    fn parse_call_args(&mut self) -> (r: Option<Args>)
        requires
            old(self).wf(),
        ensures
            final(self).wf(),
            final(self).tokens() == old(self).tokens(),
            (r, final(self).at()) == spec_parse_call_args(old(self).tokens(), old(self).at()),
            old(self).at() <= final(self).at(),
        decreases old(self).toks@.len() - old(self).pos, 2int,
    {
        if self.eat_punct(Punct::RParen) {
            Some(Args::Nil)
        } else {
            self.parse_args_rest()
        }
    }

    /// Parse a non-empty comma-separated argument list, up to and including
    /// the closing parenthesis.
    fn parse_args_rest(&mut self) -> (r: Option<Args>)
        requires
            old(self).wf(),
        ensures
            final(self).wf(),
            final(self).tokens() == old(self).tokens(),
            (r, final(self).at()) == spec_parse_args_rest(old(self).tokens(), old(self).at()),
            old(self).at() <= final(self).at(),
        decreases old(self).toks@.len() - old(self).pos, 1int,
    {
        match self.parse_expr() {
            None => None,
            Some(e) => {
                if self.eat_punct(Punct::Comma) {
                    match self.parse_args_rest() {
                        Some(rest) => Some(Args::Cons(Box::new(e), Box::new(rest))),
                        None => None,
                    }
                } else if self.eat_punct(Punct::RParen) {
                    Some(Args::Cons(Box::new(e), Box::new(Args::Nil)))
                } else {
                    None
                }
            },
        }
    }
}

} // verus!
