//! Lowering of the while statement into a structured loop.
//!
//! The loop holds a condition — re-evaluated freshly before each iteration —
//! which must lower to a boolean in the surrounding scope, and a body region
//! lowered under a scope snapshot of its own: standard structured-loop
//! semantics, zero or more iterations, bindings made inside the body never
//! leaking out.

use vstd::prelude::*;

use crate::ast::WhileStmt;
use crate::ir::{lemma_ops_view_push, op_view, ops_view, IrOp, IrType, SpecOp};
use crate::scope::Scope;
use super::expressions::{compile_expr, spec_compile_expr};
use super::{
    compile_block_into, spec_compile_stmts, stmt_lowering_post, CompileError, SpecCompileError,
};

verus! {

/// What lowering a while yields: one structured loop holding the condition
/// and the body region; the surrounding scope map is returned unchanged.
pub open spec fn spec_compile_while(
    m: Map<Seq<char>, nat>,
    next: nat,
    s: WhileStmt,
) -> Result<(Map<Seq<char>, nat>, nat, Seq<SpecOp>), SpecCompileError>
    decreases s,
{
    match spec_compile_expr(m, s.cond) {
        Ok((c, t)) => if t != IrType::I1 {
            Err(SpecCompileError::TypeMismatch)
        } else {
            match spec_compile_stmts(m, next, s.body.stmts@) {
                Ok((_m1, n1, body)) => Ok((m, n1, seq![SpecOp::While(c, body)])),
                Err(e2) => Err(e2),
            }
        },
        Err(e2) => Err(e2),
    }
}

/// A while statement:
///
/// `while (i != 0) { ... }`
pub fn compile_while(
    scope: &mut Scope,
    next_slot: &mut usize,
    ops: &mut Vec<IrOp>,
    stmt: &WhileStmt,
) -> (r: Result<(), CompileError>)
    ensures
        stmt_lowering_post(
            old(scope)@,
            *old(next_slot) as nat,
            old(ops)@,
            final(scope)@,
            *final(next_slot) as nat,
            final(ops)@,
            r,
            spec_compile_while(old(scope)@, *old(next_slot) as nat, *stmt),
        ),
    decreases *stmt,
{
    let (c, t) = match compile_expr(scope, &stmt.cond) {
        Ok(x) => x,
        Err(e) => {
            return Err(e);
        },
    };
    if t != IrType::I1 {
        return Err(CompileError::TypeMismatch);
    }
    let saved: usize = *next_slot;

    let mut body_scope = scope.snapshot();
    let mut body_ops: Vec<IrOp> = Vec::new();
    match compile_block_into(&mut body_scope, next_slot, &mut body_ops, &stmt.body) {
        Ok(()) => {},
        Err(e) => {
            *next_slot = saved;
            return Err(e);
        },
    }

    let ghost ops0 = ops@;
    let op = IrOp::While(c, body_ops);
    proof {
        lemma_ops_view_push(ops0, op);
        assert(body_ops@.skip(0) =~= body_ops@);
    }
    ops.push(op);
    proof {
        assert(ops@.skip(ops0.len() as int) =~= seq![op]);
        assert(seq![op].drop_last() =~= Seq::<IrOp>::empty());
        assert(ops_view(Seq::<IrOp>::empty()) == Seq::<SpecOp>::empty());
        assert(ops_view(seq![op]) =~= seq![op_view(op)]);
        assert(ops@.subrange(0, ops0.len() as int) =~= ops0);
    }
    Ok(())
}

} // verus!
