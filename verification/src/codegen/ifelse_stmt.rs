//! Lowering of the if/else statement into a structured two-region
//! conditional.
//!
//! The condition must lower to a boolean. The then block and the optional
//! else block are each lowered into a region of their own, under their own
//! scope snapshot; both snapshots are discarded afterwards, so a `let`
//! inside either block never leaks out, while the slot counter keeps
//! advancing so the blocks' slots stay distinct from everything else in the
//! function.

use vstd::prelude::*;

use crate::ast::{Block, IfStmt};
use crate::ir::{lemma_ops_view_push, op_view, ops_view, IrOp, IrType, SpecOp};
use crate::scope::Scope;
use super::expressions::{compile_expr, spec_compile_expr};
use super::{
    compile_block_into, spec_compile_stmts, stmt_lowering_post, CompileError, SpecCompileError,
};

verus! {

/// What lowering the optional else block yields: the slot counter
/// afterwards and the region's operations — an empty region when the source
/// has no else block.
pub open spec fn spec_compile_else(
    m: Map<Seq<char>, nat>,
    next: nat,
    e: Option<Block>,
) -> Result<(nat, Seq<SpecOp>), SpecCompileError>
    decreases e,
{
    match e {
        Option::None => Ok((next, Seq::empty())),
        Option::Some(b) => match spec_compile_stmts(m, next, b.stmts@) {
            Ok((_m1, n1, ops)) => Ok((n1, ops)),
            Err(e2) => Err(e2),
        },
    }
}

/// What lowering an if/else yields: one structured conditional holding both
/// regions; the surrounding scope map is returned unchanged — bindings made
/// inside either region do not leak.
pub open spec fn spec_compile_if(
    m: Map<Seq<char>, nat>,
    next: nat,
    s: IfStmt,
) -> Result<(Map<Seq<char>, nat>, nat, Seq<SpecOp>), SpecCompileError>
    decreases s,
{
    match spec_compile_expr(m, s.cond) {
        Ok((c, t)) => if t != IrType::I1 {
            Err(SpecCompileError::TypeMismatch)
        } else {
            match spec_compile_stmts(m, next, s.then_block.stmts@) {
                Ok((_m1, n1, thn)) => match spec_compile_else(m, n1, s.else_block) {
                    Ok((n2, els)) => Ok((m, n2, seq![SpecOp::If(c, thn, els)])),
                    Err(e2) => Err(e2),
                },
                Err(e2) => Err(e2),
            }
        },
        Err(e2) => Err(e2),
    }
}

/// An if statement with an optional else block:
///
/// `if (a == b) { ... } else { ... }`
pub fn compile_if(
    scope: &mut Scope,
    next_slot: &mut usize,
    ops: &mut Vec<IrOp>,
    stmt: &IfStmt,
) -> (r: Result<(), CompileError>)
    ensures
        stmt_lowering_post(
            old(scope)@,
            *old(next_slot) as nat,
            old(ops)@,
            final(scope)@,
            *final(next_slot) as nat,
            final(ops)@,
            r,
            spec_compile_if(old(scope)@, *old(next_slot) as nat, *stmt),
        ),
    decreases *stmt,
{
    let (c, t) = match compile_expr(scope, &stmt.cond) {
        Ok(x) => x,
        Err(e) => {
            return Err(e);
        },
    };
    if t != IrType::I1 {
        return Err(CompileError::TypeMismatch);
    }
    let saved: usize = *next_slot;

    let mut then_scope = scope.snapshot();
    let mut then_ops: Vec<IrOp> = Vec::new();
    match compile_block_into(&mut then_scope, next_slot, &mut then_ops, &stmt.then_block) {
        Ok(()) => {},
        Err(e) => {
            *next_slot = saved;
            return Err(e);
        },
    }

    let mut else_ops: Vec<IrOp> = Vec::new();
    match &stmt.else_block {
        Some(else_block) => {
            let mut else_scope = scope.snapshot();
            match compile_block_into(&mut else_scope, next_slot, &mut else_ops, else_block) {
                Ok(()) => {},
                Err(e) => {
                    *next_slot = saved;
                    return Err(e);
                },
            }
        },
        None => {},
    }

    let ghost ops0 = ops@;
    let op = IrOp::If(c, then_ops, else_ops);
    proof {
        lemma_ops_view_push(ops0, op);
        assert(then_ops@.skip(0) =~= then_ops@);
        assert(else_ops@.skip(0) =~= else_ops@);
    }
    ops.push(op);
    proof {
        assert(ops@.skip(ops0.len() as int) =~= seq![op]);
        assert(seq![op].drop_last() =~= Seq::<IrOp>::empty());
        assert(ops_view(Seq::<IrOp>::empty()) == Seq::<SpecOp>::empty());
        assert(ops_view(seq![op]) =~= seq![op_view(op)]);
        assert(ops@.subrange(0, ops0.len() as int) =~= ops0);
    }
    Ok(())
}

} // verus!
