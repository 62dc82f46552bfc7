//! The code generator: folds the accumulated statement list, traversed in
//! reverse of source order, into one nested expression tree.
//!
//! Each bind statement wraps the accumulator in a genuine continuation
//! boundary, `expr.and_then(move |name| Async::Ok({ acc }))`; a non-bind
//! statement is sequenced together with the accumulator inside one block,
//! `{ acc; expr }`.  Sequencing with the initial empty accumulator yields a
//! single-item block, so the innermost result is `Async::Ok({ name })`.
//!
//! Because the traversal is reverse-of-source while the non-bind case
//! places the current statement after the already-built accumulator, two
//! consecutive non-bind statements come out in reverse of their source
//! order unless a bind boundary stands between them.  That ordering is part
//! of the generator's contract and is pinned down by the order laws.

use vstd::prelude::*;

use crate::ast::Block;
use crate::ast::Expr;
use crate::flow::Flow;

verus! {

/// Sequence the already-built accumulator and one more expression inside a
/// block: `{ acc; e }`, or `{ e }` when the accumulator is still the empty
/// block.
pub open spec fn spec_block_seq(acc: Expr, e: Expr) -> Expr {
    if acc == Expr::Unit {
        Expr::BlockOne(Box::new(e))
    } else {
        Expr::Seq2(Box::new(acc), Box::new(e))
    }
}

/// Rewrap the accumulator with one statement: the single fold step of the
/// generator.  A bind's declared type is informational and plays no part in
/// the generated code.
pub open spec fn spec_step(b: Block, acc: Expr) -> Expr {
    match b {
        Block::Async(name, _ty, expr) => Expr::AndThen(
            Box::new(expr),
            name,
            Box::new(Expr::Wrap(Box::new(acc))),
        ),
        Block::Expr(e) => spec_block_seq(acc, e),
        Block::Ident(n) => spec_block_seq(acc, Expr::Var(n)),
    }
}

/// What the generator produces for a statement list: the first statement's
/// rewrapping of everything generated for the statements after it, starting
/// from the empty block.
pub open spec fn spec_generate(blocks: Seq<Block>) -> Expr
    decreases blocks.len(),
{
    if blocks.len() == 0 {
        Expr::Unit
    } else {
        spec_step(blocks.first(), spec_generate(blocks.drop_first()))
    }
}

/// The same fold, written the way the executable generator runs it: taking
/// statements from the back of the list into an accumulator.
pub open spec fn spec_gen_with(blocks: Seq<Block>, acc: Expr) -> Expr
    decreases blocks.len(),
{
    if blocks.len() == 0 {
        acc
    } else {
        spec_gen_with(blocks.drop_last(), spec_step(blocks.last(), acc))
    }
}

/// Peeling the accumulator fold from the front: the first statement's step
/// wraps the fold of the rest.
proof fn lemma_gen_with_unroll(blocks: Seq<Block>, acc: Expr)
    requires
        blocks.len() > 0,
    ensures
        spec_gen_with(blocks, acc) == spec_step(
            blocks.first(),
            spec_gen_with(blocks.drop_first(), acc),
        ),
    decreases blocks.len(),
{
    if blocks.len() == 1 {
        assert(blocks.drop_last() =~= Seq::<Block>::empty());
        assert(blocks.drop_first() =~= Seq::<Block>::empty());
        assert(blocks.last() == blocks.first());
    } else {
        let shorter = blocks.drop_last();
        lemma_gen_with_unroll(shorter, spec_step(blocks.last(), acc));
        assert(shorter.first() == blocks.first());
        assert(shorter.drop_first() =~= blocks.drop_first().drop_last());
        assert(blocks.drop_first().last() == blocks.last());
    }
}

/// The two shapes of the fold agree: running the accumulator from the back
/// over the whole list, starting at the empty block, generates exactly what
/// the front-first description says.
proof fn lemma_gen_with_generate(blocks: Seq<Block>)
    ensures
        spec_gen_with(blocks, Expr::Unit) == spec_generate(blocks),
    decreases blocks.len(),
{
    if blocks.len() > 0 {
        lemma_gen_with_unroll(blocks, Expr::Unit);
        lemma_gen_with_generate(blocks.drop_first());
    }
}

/// One executable fold step; consumes the statement.
fn step(b: Block, acc: Expr) -> (e: Expr)
    ensures
        e == spec_step(b, acc),
{
    match b {
        Block::Async(name, _ty, expr) => Expr::AndThen(
            Box::new(expr),
            name,
            Box::new(Expr::Wrap(Box::new(acc))),
        ),
        Block::Expr(e2) => block_seq(acc, e2),
        Block::Ident(n) => block_seq(acc, Expr::Var(n)),
    }
}

/// Executable sequencing of the accumulator and one more expression.
fn block_seq(acc: Expr, e: Expr) -> (r: Expr)
    ensures
        r == spec_block_seq(acc, e),
{
    match acc {
        Expr::Unit => Expr::BlockOne(Box::new(e)),
        _ => Expr::Seq2(Box::new(acc), Box::new(e)),
    }
}

impl Flow {
    /// Fold the statements accepted so far — taken destructively, last
    /// statement first — into the single generated expression.
    pub fn code(&mut self) -> (e: Expr)
        ensures
            e == spec_generate(old(self).blocks@),
            final(self).blocks@ == Seq::<Block>::empty(),
            final(self).inner == old(self).inner,
            final(self).state == old(self).state,
    {
        let e = self.code_with(Expr::Unit);
        proof {
            lemma_gen_with_generate(old(self).blocks@);
            assert(self.blocks@ =~= Seq::<Block>::empty());
        }
        e
    }

    /// Fold the remaining statements, from the back, into `acc`.
    fn code_with(&mut self, acc: Expr) -> (e: Expr)
        ensures
            e == spec_gen_with(old(self).blocks@, acc),
            final(self).blocks@.len() == 0,
            final(self).inner == old(self).inner,
            final(self).state == old(self).state,
        decreases old(self).blocks@.len(),
    {
        match self.blocks.pop() {
            None => acc,
            Some(b) => {
                let acc2 = step(b, acc);
                self.code_with(acc2)
            },
        }
    }
}

} // verus!
