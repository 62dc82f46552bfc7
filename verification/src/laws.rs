//! Laws of the transform: what the generated continuation chain looks like
//! for whole families of inputs, proved once and for all.

use vstd::prelude::*;

use crate::ast::Block;
use crate::ast::Expr;
use crate::ast::FlowError;
use crate::ast::and_then_depth;
use crate::ast::result_core;
use crate::codegen::spec_generate;
use crate::flow::spec_run;
use crate::spec_expand;
use crate::token::Token;

verus! {

/// For any sequence of bind statements followed by one non-bind tail, the
/// generator produces exactly one `and_then` boundary per bind, nested, and
/// one innermost result block holding the tail expression.
pub proof fn lemma_bind_chain(binds: Seq<Block>, tail: Block)
    requires
        forall|i: int| 0 <= i < binds.len() ==> binds[i] is Async,
        match tail {
            Block::Expr(e) => and_then_depth(e) == 0,
            Block::Ident(_) => true,
            Block::Async(_, _, _) => false,
        },
    ensures
        and_then_depth(spec_generate(binds.push(tail))) == binds.len(),
        tail matches Block::Ident(n) ==> result_core(spec_generate(binds.push(tail)))
            == Expr::BlockOne(Box::new(Expr::Var(n))),
        tail matches Block::Expr(e) ==> result_core(spec_generate(binds.push(tail)))
            == Expr::BlockOne(Box::new(e)),
    decreases binds.len(),
{
    reveal_with_fuel(spec_generate, 3);
    reveal_with_fuel(and_then_depth, 4);
    reveal_with_fuel(result_core, 4);
    let s = binds.push(tail);
    if binds.len() == 0 {
        assert(s.first() == tail);
        assert(s.drop_first() =~= Seq::<Block>::empty());
    } else {
        assert(s.first() == binds[0]);
        assert(s.drop_first() =~= binds.drop_first().push(tail));
        match binds[0] {
            Block::Async(_name, _ty, _expr) => {
                lemma_bind_chain(binds.drop_first(), tail);
            },
            _ => {
                assert(false);
            },
        }
    }
}

/// The bind-chain law at the whole-transform level: for any invocation
/// whose accepted statements are some number of binds followed by one
/// non-bind tail, expansion succeeds and nests exactly one `and_then`
/// boundary per bind around one innermost result block.
pub proof fn lemma_expansion_counts(toks: Seq<Token>)
    requires
        ({
            let out = spec_run(toks, 0);
            &&& !out.fatal
            &&& out.blocks.len() > 0
            &&& forall|i: int| 0 <= i < out.blocks.len() - 1 ==> out.blocks[i] is Async
            &&& !(out.blocks.last() is Async)
        }),
    ensures
        ({
            let out = spec_run(toks, 0);
            &&& spec_expand(toks) == Ok::<Expr, FlowError>(spec_generate(out.blocks))
            &&& and_then_depth(spec_generate(out.blocks)) == out.blocks.len() - 1
        }),
{
    let out = spec_run(toks, 0);
    crate::flow::lemma_run_source(toks, 0);
    let binds = out.blocks.drop_last();
    let tail = out.blocks.last();
    assert(out.blocks =~= binds.push(tail));
    assert(crate::ast::is_source_block(tail));
    match tail {
        Block::Expr(e) => {
            crate::ast::lemma_source_expr_depth(e);
        },
        _ => {},
    }
    assert forall|i: int| 0 <= i < binds.len() implies binds[i] is Async by {
        assert(binds[i] == out.blocks[i]);
    }
    lemma_bind_chain(binds, tail);
}

/// The empty invocation expands to the empty block: a well-defined no-op,
/// not an error.
pub proof fn lemma_empty_invocation()
    ensures
        spec_expand(Seq::<Token>::empty()) == Ok::<Expr, FlowError>(Expr::Unit),
{
}

/// One bind statement followed by a bare name generates the bound
/// expression's `and_then`, whose closure binds the name and returns the
/// tail wrapped as a result: `expr.and_then(move |name| Async::Ok({ tail }))`.
pub proof fn lemma_single_bind_shape(name: String, ty: Option<String>, expr: Expr, tail: String)
    ensures
        spec_generate(seq![Block::Async(name, ty, expr), Block::Ident(tail)]) == Expr::AndThen(
            Box::new(expr),
            name,
            Box::new(Expr::Wrap(Box::new(Expr::BlockOne(Box::new(Expr::Var(tail)))))),
        ),
{
    reveal_with_fuel(spec_generate, 4);
    let s = seq![Block::Async(name, ty, expr), Block::Ident(tail)];
    assert(s.drop_first() =~= seq![Block::Ident(tail)]);
    assert(s.drop_first().drop_first() =~= Seq::<Block>::empty());
}

/// Two bind statements followed by a bare name nest their continuations:
/// the second bind's whole `and_then` sits inside the first bind's closure,
/// so the second name is in scope only within the inner closure, and the
/// first name is in scope for the second bound expression and everything
/// inward.
pub proof fn lemma_two_bind_shape(
    n1: String,
    t1: Option<String>,
    e1: Expr,
    n2: String,
    t2: Option<String>,
    e2: Expr,
    tail: String,
)
    ensures
        spec_generate(
            seq![
                Block::Async(n1, t1, e1),
                Block::Async(n2, t2, e2),
                Block::Ident(tail),
            ],
        ) == Expr::AndThen(
            Box::new(e1),
            n1,
            Box::new(Expr::Wrap(Box::new(Expr::AndThen(
                Box::new(e2),
                n2,
                Box::new(Expr::Wrap(Box::new(Expr::BlockOne(Box::new(Expr::Var(tail)))))),
            )))),
        ),
{
    reveal_with_fuel(spec_generate, 5);
    let s = seq![Block::Async(n1, t1, e1), Block::Async(n2, t2, e2), Block::Ident(tail)];
    assert(s.drop_first() =~= seq![Block::Async(n2, t2, e2), Block::Ident(tail)]);
    assert(s.drop_first().drop_first() =~= seq![Block::Ident(tail)]);
    assert(s.drop_first().drop_first().drop_first() =~= Seq::<Block>::empty());
}

/// Two consecutive non-bind statements generate in reverse of their source
/// order: the second statement's expression stands in the inner block and
/// is evaluated before the first.  This reversed fold is the generator's
/// documented behaviour for non-bind runs, not an accident of one input.
pub proof fn lemma_nonbind_pair_order(e1: Expr, e2: Expr)
    ensures
        spec_generate(seq![Block::Expr(e1), Block::Expr(e2)]) == Expr::Seq2(
            Box::new(Expr::BlockOne(Box::new(e2))),
            Box::new(e1),
        ),
{
    reveal_with_fuel(spec_generate, 4);
    let s = seq![Block::Expr(e1), Block::Expr(e2)];
    assert(s.drop_first() =~= seq![Block::Expr(e2)]);
    assert(s.drop_first().drop_first() =~= Seq::<Block>::empty());
}

} // verus!
