//! Lowering of the return statement: the expression must be a 64-bit
//! integer (returning a bare comparison is a type mismatch), and the emitted
//! operation ends the enclosing function with that value. Statements after a
//! return in the same block are still lowered; they are simply never
//! executed.

use vstd::prelude::*;

use crate::ast::ReturnStmt;
use crate::ir::{lemma_ops_view_push, op_view, ops_view, IrOp, IrType, SpecOp};
use crate::scope::Scope;
use super::expressions::{compile_expr, spec_compile_expr};
use super::{stmt_lowering_post, CompileError, SpecCompileError};

verus! {

/// What lowering a return yields: a single return operation; scope and slot
/// counter unchanged.
pub open spec fn spec_compile_return(
    m: Map<Seq<char>, nat>,
    next: nat,
    s: ReturnStmt,
) -> Result<(Map<Seq<char>, nat>, nat, Seq<SpecOp>), SpecCompileError> {
    match spec_compile_expr(m, s.expr) {
        Ok((v, t)) => if t != IrType::I64 {
            Err(SpecCompileError::TypeMismatch)
        } else {
            Ok((m, next, seq![SpecOp::Return(v)]))
        },
        Err(e) => Err(e),
    }
}

/// A return statement:
///
/// `return x + 1;`
pub fn compile_return(
    scope: &mut Scope,
    next_slot: &mut usize,
    ops: &mut Vec<IrOp>,
    stmt: &ReturnStmt,
) -> (r: Result<(), CompileError>)
    ensures
        stmt_lowering_post(
            old(scope)@,
            *old(next_slot) as nat,
            old(ops)@,
            final(scope)@,
            *final(next_slot) as nat,
            final(ops)@,
            r,
            spec_compile_return(old(scope)@, *old(next_slot) as nat, *stmt),
        ),
{
    let (v, t) = match compile_expr(scope, &stmt.expr) {
        Ok(x) => x,
        Err(e) => {
            return Err(e);
        },
    };
    if t != IrType::I64 {
        return Err(CompileError::TypeMismatch);
    }
    let ghost ops0 = ops@;
    let op = IrOp::Return(v);
    proof {
        lemma_ops_view_push(ops0, op);
    }
    ops.push(op);
    proof {
        assert(ops@.skip(ops0.len() as int) =~= seq![op]);
        assert(seq![op].drop_last() =~= Seq::<IrOp>::empty());
        assert(ops_view(Seq::<IrOp>::empty()) == Seq::<SpecOp>::empty());
        assert(ops_view(seq![op]) =~= seq![op_view(op)]);
        assert(ops@.subrange(0, ops0.len() as int) =~= ops0);
    }
    Ok(())
}

} // verus!
