//! The classifier and driver seen one step at a time: statement order, the
//! machine states, and the destructive hand-over to the code generator.

use flow::Block;
use flow::Expr;
use flow::Flow;
use flow::Punct;
use flow::State;
use flow::Token;

fn id(s: &str) -> Token {
    Token::Ident(s.to_string())
}

fn punct(k: Punct) -> Token {
    Token::Punct(k)
}

/// Construction takes the machine straight to `Accumulating`; reaching end
/// of input takes it to `Done`.
#[test]
fn machine_states_in_order() {
    let mut f = Flow::new(vec![id("x")]);
    assert_eq!(f.state(), State::Accumulating);
    assert_eq!(f.parse(), Ok(()));
    assert_eq!(f.state(), State::Done);
}

/// The classifier yields one statement per call, then end of input.
#[test]
fn classifier_steps() {
    let mut f = Flow::new(vec![Token::KwLet, id("a"), punct(Punct::LArrow), id("g"), id("a")]);
    assert_eq!(
        f.parse_block(),
        Ok(Some(Block::Async("a".to_string(), None, Expr::Var("g".to_string())))),
    );
    assert_eq!(f.parse_block(), Ok(Some(Block::Ident("a".to_string()))));
    assert_eq!(f.parse_block(), Ok(None));
}

/// The driver keeps statements in source order; the generator then consumes
/// them destructively, leaving the list empty.
#[test]
fn statements_kept_in_source_order_then_consumed() {
    let mut f = Flow::new(vec![Token::KwLet, id("a"), punct(Punct::LArrow), id("g"), id("h")]);
    assert_eq!(f.parse(), Ok(()));
    assert_eq!(
        f.blocks(),
        &vec![
            Block::Async("a".to_string(), None, Expr::Var("g".to_string())),
            Block::Ident("h".to_string()),
        ],
    );
    let generated = f.code();
    assert_eq!(
        generated,
        Expr::AndThen(
            Box::new(Expr::Var("g".to_string())),
            "a".to_string(),
            Box::new(Expr::Wrap(Box::new(Expr::BlockOne(Box::new(Expr::Var("h".to_string())))))),
        ),
    );
    assert_eq!(f.blocks().len(), 0);
}

/// The declared type of a bind is recorded on the statement.
#[test]
fn declared_type_recorded() {
    let mut f = Flow::new(vec![
        Token::KwLet,
        id("a"),
        punct(Punct::Colon),
        id("bool"),
        punct(Punct::LArrow),
        id("g"),
    ]);
    assert_eq!(f.parse(), Ok(()));
    assert_eq!(
        f.blocks(),
        &vec![Block::Async(
            "a".to_string(),
            Some("bool".to_string()),
            Expr::Var("g".to_string()),
        )],
    );
}
