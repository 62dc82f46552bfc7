//! End-to-end behaviour of the transform: token sequences in, generated
//! expression trees (or the fatal error) out.

use flow::expand;
use flow::Args;
use flow::Expr;
use flow::FlowError;
use flow::Punct;
use flow::Token;

fn id(s: &str) -> Token {
    Token::Ident(s.to_string())
}

fn punct(k: Punct) -> Token {
    Token::Punct(k)
}

fn var(s: &str) -> Expr {
    Expr::Var(s.to_string())
}

fn bx(e: Expr) -> Box<Expr> {
    Box::new(e)
}

fn args_list(mut items: Vec<Expr>) -> Args {
    let mut a = Args::Nil;
    while let Some(e) = items.pop() {
        a = Args::Cons(Box::new(e), Box::new(a));
    }
    a
}

fn call(name: &str, items: Vec<Expr>) -> Expr {
    Expr::Call(name.to_string(), args_list(items))
}

fn and_then(antecedent: Expr, name: &str, body: Expr) -> Expr {
    Expr::AndThen(bx(antecedent), name.to_string(), bx(body))
}

fn wrap_block_one(e: Expr) -> Expr {
    Expr::Wrap(bx(Expr::BlockOne(bx(e))))
}

/// A full invocation: `let a: bool <- foobar(ccc)` with the bare tail `a`.
#[test]
fn compile() {
    let tokens = vec![
        Token::KwLet,
        id("a"),
        punct(Punct::Colon),
        id("bool"),
        punct(Punct::LArrow),
        id("foobar"),
        punct(Punct::LParen),
        id("ccc"),
        punct(Punct::RParen),
        id("a"),
    ];
    let expected = and_then(call("foobar", vec![var("ccc")]), "a", wrap_block_one(var("a")));
    assert_eq!(expand(tokens), Ok(expected));
}

/// `flow{ let a <- f() a }` desugars to `f().and_then(move |a| Ok({ a }))`.
#[test]
fn single_bind_desugars_to_one_and_then() {
    let tokens = vec![
        Token::KwLet,
        id("a"),
        punct(Punct::LArrow),
        id("f"),
        punct(Punct::LParen),
        punct(Punct::RParen),
        id("a"),
    ];
    let expected = and_then(call("f", vec![]), "a", wrap_block_one(var("a")));
    assert_eq!(expand(tokens), Ok(expected));
}

/// An empty invocation produces the empty block, not an error.
#[test]
fn empty_invocation_is_a_noop() {
    assert_eq!(expand(vec![]), Ok(Expr::Unit));
}

/// `flow{ let a <- foo let b <- bar(a) b }`: the second bind's whole chain
/// sits inside the first closure, so `b` is visible only in the inner
/// closure and `a` is visible to `bar(a)` and inward.
#[test]
fn two_binds_nest_their_scopes() {
    let tokens = vec![
        Token::KwLet,
        id("a"),
        punct(Punct::LArrow),
        id("foo"),
        Token::KwLet,
        id("b"),
        punct(Punct::LArrow),
        id("bar"),
        punct(Punct::LParen),
        id("a"),
        punct(Punct::RParen),
        id("b"),
    ];
    let inner = and_then(call("bar", vec![var("a")]), "b", wrap_block_one(var("b")));
    let expected = and_then(var("foo"), "a", Expr::Wrap(bx(inner)));
    assert_eq!(expand(tokens), Ok(expected));
}

/// A tuple pattern after `let` is fatal: the expansion aborts with the
/// structural parse error and yields no partial output.
#[test]
fn tuple_pattern_aborts_expansion() {
    let tokens = vec![
        Token::KwLet,
        punct(Punct::LParen),
        id("x"),
        punct(Punct::Comma),
        id("y"),
        punct(Punct::RParen),
        punct(Punct::LArrow),
        id("foo"),
        id("x"),
    ];
    assert_eq!(expand(tokens), Err(FlowError::StructuralParse));
}

/// A wildcard pattern is just as fatal as a tuple pattern.
#[test]
fn wildcard_pattern_aborts_expansion() {
    let tokens = vec![Token::KwLet, punct(Punct::Underscore), punct(Punct::LArrow), id("f")];
    assert_eq!(expand(tokens), Err(FlowError::StructuralParse));
}

/// Three binds and a tail produce exactly three nested `and_then` calls
/// around one innermost result block.
#[test]
fn three_binds_nest_three_boundaries() {
    let tokens = vec![
        Token::KwLet,
        id("a"),
        punct(Punct::LArrow),
        id("f"),
        Token::KwLet,
        id("b"),
        punct(Punct::LArrow),
        id("g"),
        Token::KwLet,
        id("c"),
        punct(Punct::LArrow),
        id("h"),
        id("c"),
    ];
    let innermost = wrap_block_one(var("c"));
    let level3 = and_then(var("h"), "c", innermost);
    let level2 = and_then(var("g"), "b", Expr::Wrap(bx(level3)));
    let level1 = and_then(var("f"), "a", Expr::Wrap(bx(level2)));
    assert_eq!(expand(tokens), Ok(level1));
}

/// Two consecutive non-bind statements come out in reverse of their source
/// order: `flow{ (foo); (bar) }` evaluates `(bar)` before `(foo)`.  This is
/// the generator's documented reversed-fold behaviour.
#[test]
fn nonbind_pair_generates_in_reverse_order() {
    let tokens = vec![
        punct(Punct::LParen),
        id("foo"),
        punct(Punct::RParen),
        punct(Punct::Semi),
        punct(Punct::LParen),
        id("bar"),
        punct(Punct::RParen),
    ];
    let second = Expr::Paren(bx(var("bar")));
    let first = Expr::Paren(bx(var("foo")));
    let expected = Expr::Seq2(bx(Expr::BlockOne(bx(second))), bx(first));
    assert_eq!(expand(tokens), Ok(expected));
}

/// A bare name consumes no separator, so `flow{ foo; bar }` keeps only
/// `foo`: the stray separator silently truncates the rest of the input.
#[test]
fn bare_name_then_separator_truncates() {
    let tokens = vec![id("foo"), punct(Punct::Semi), id("bar")];
    let expected = Expr::BlockOne(bx(var("foo")));
    assert_eq!(expand(tokens), Ok(expected));
}

/// A `let` without the left arrow silently truncates: nothing is accepted
/// and the expansion is the empty block.
#[test]
fn missing_arrow_truncates_silently() {
    let tokens = vec![Token::KwLet, id("a"), punct(Punct::Colon), id("bool"), id("rest")];
    assert_eq!(expand(tokens), Ok(Expr::Unit));
}

/// A `let` whose right-hand expression is missing truncates the same way.
#[test]
fn missing_bound_expression_truncates_silently() {
    let tokens = vec![Token::KwLet, id("a"), punct(Punct::LArrow)];
    assert_eq!(expand(tokens), Ok(Expr::Unit));
}

/// The declared type of a bind is informational only: with or without it,
/// the generated code is the same.
#[test]
fn declared_type_is_informational() {
    let with_ty = vec![
        Token::KwLet,
        id("a"),
        punct(Punct::Colon),
        id("bool"),
        punct(Punct::LArrow),
        id("f"),
        id("a"),
    ];
    let without_ty = vec![Token::KwLet, id("a"), punct(Punct::LArrow), id("f"), id("a")];
    assert_eq!(expand(with_ty), expand(without_ty));
}

/// A literal alone is an expression statement.
#[test]
fn literal_expression_statement() {
    let tokens = vec![Token::Lit(123)];
    assert_eq!(expand(tokens), Ok(Expr::BlockOne(bx(Expr::Lit(123)))));
}

/// Call arguments are kept in source order, literals and parenthesised
/// expressions included.
#[test]
fn call_arguments_parsed_in_order() {
    let tokens = vec![
        Token::KwLet,
        id("a"),
        punct(Punct::LArrow),
        id("f"),
        punct(Punct::LParen),
        id("x"),
        punct(Punct::Comma),
        Token::Lit(2),
        punct(Punct::Comma),
        punct(Punct::LParen),
        id("y"),
        punct(Punct::RParen),
        punct(Punct::RParen),
        id("a"),
    ];
    let f_call = call("f", vec![var("x"), Expr::Lit(2), Expr::Paren(bx(var("y")))]);
    let expected = and_then(f_call, "a", wrap_block_one(var("a")));
    assert_eq!(expand(tokens), Ok(expected));
}

/// Input that no statement shape matches truncates to the empty expansion.
#[test]
fn unparsable_input_truncates_to_empty() {
    let tokens = vec![punct(Punct::Comma)];
    assert_eq!(expand(tokens), Ok(Expr::Unit));
}

/// Tokens after the last parsable statement are dropped.
#[test]
fn trailing_garbage_dropped() {
    let tokens = vec![id("x"), punct(Punct::Colon)];
    assert_eq!(expand(tokens), Ok(Expr::BlockOne(bx(var("x")))));
}

/// An unclosed parenthesis fails the expression and truncates the input.
#[test]
fn unclosed_paren_truncates() {
    let tokens = vec![punct(Punct::LParen), id("x")];
    assert_eq!(expand(tokens), Ok(Expr::Unit));
}

/// An unclosed argument list fails the bind's right-hand expression, so the
/// bind is dropped and the input truncated.
#[test]
fn unclosed_call_truncates() {
    let tokens = vec![
        Token::KwLet,
        id("a"),
        punct(Punct::LArrow),
        id("f"),
        punct(Punct::LParen),
        id("x"),
    ];
    assert_eq!(expand(tokens), Ok(Expr::Unit));
}
