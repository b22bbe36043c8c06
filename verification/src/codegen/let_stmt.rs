//! Lowering of `let` and assignment statements.
//!
//! `let x = e;` lowers `e`, allocates a fresh storage slot, writes the value
//! into it and binds `x` to the new slot, shadowing any outer `x`. `x = e;`
//! resolves the existing slot of `x` — failing with
//! [`CompileError::AssignToUndeclared`] if there is none — lowers `e` and
//! writes through that slot; it never allocates, which is what makes the
//! write visible outside any enclosing block.

use vstd::prelude::*;

use crate::ast::{AssignStmt, LetStmt};
use crate::ir::{lemma_ops_view_push, op_view, ops_view, IrOp, IrType, SpecOp};
use crate::scope::Scope;
use super::expressions::{compile_expr, spec_compile_expr};
use super::{stmt_lowering_post, CompileError, SpecCompileError};

verus! {

/// What lowering a `let` yields: the value stored into a fresh slot, the
/// name bound to it, the slot counter advanced.
pub open spec fn spec_compile_let(
    m: Map<Seq<char>, nat>,
    next: nat,
    s: LetStmt,
) -> Result<(Map<Seq<char>, nat>, nat, Seq<SpecOp>), SpecCompileError> {
    match spec_compile_expr(m, s.expr) {
        Ok((v, t)) => if t != IrType::I64 {
            Err(SpecCompileError::TypeMismatch)
        } else if next >= usize::MAX as nat {
            Err(SpecCompileError::TooManyVariables)
        } else {
            Ok((m.insert(s.variable@, next), next + 1, seq![SpecOp::Store(next, v)]))
        },
        Err(e) => Err(e),
    }
}

/// What lowering an assignment yields: the value written through the
/// existing slot; scope and slot counter unchanged.
pub open spec fn spec_compile_assign(
    m: Map<Seq<char>, nat>,
    next: nat,
    s: AssignStmt,
) -> Result<(Map<Seq<char>, nat>, nat, Seq<SpecOp>), SpecCompileError> {
    if !m.contains_key(s.variable@) {
        Err(SpecCompileError::AssignToUndeclared(s.variable@))
    } else {
        match spec_compile_expr(m, s.expr) {
            Ok((v, t)) => if t != IrType::I64 {
                Err(SpecCompileError::TypeMismatch)
            } else {
                Ok((m, next, seq![SpecOp::Store(m[s.variable@], v)]))
            },
            Err(e) => Err(e),
        }
    }
}

/// A let statement:
///
/// `let x = 2;`
pub fn compile_let(
    scope: &mut Scope,
    next_slot: &mut usize,
    ops: &mut Vec<IrOp>,
    stmt: &LetStmt,
) -> (r: Result<(), CompileError>)
    ensures
        stmt_lowering_post(
            old(scope)@,
            *old(next_slot) as nat,
            old(ops)@,
            final(scope)@,
            *final(next_slot) as nat,
            final(ops)@,
            r,
            spec_compile_let(old(scope)@, *old(next_slot) as nat, *stmt),
        ),
{
    let (v, t) = match compile_expr(scope, &stmt.expr) {
        Ok(x) => x,
        Err(e) => {
            return Err(e);
        },
    };
    if t != IrType::I64 {
        return Err(CompileError::TypeMismatch);
    }
    if *next_slot == usize::MAX {
        return Err(CompileError::TooManyVariables);
    }
    let slot = *next_slot;
    *next_slot = slot + 1;
    scope.declare(&stmt.variable, slot);
    let ghost ops0 = ops@;
    let op = IrOp::Store(slot, v);
    proof {
        lemma_ops_view_push(ops0, op);
    }
    ops.push(op);
    proof {
        assert(ops@.skip(ops0.len() as int) =~= seq![op]);
        assert(seq![op].drop_last() =~= Seq::<IrOp>::empty());
        assert(ops_view(Seq::<IrOp>::empty()) == Seq::<SpecOp>::empty());
        assert(ops_view(seq![op]) =~= seq![op_view(op)]);
        assert(ops@.subrange(0, ops0.len() as int) =~= ops0);
    }
    Ok(())
}

/// An assign statement:
///
/// `x = 2;`
pub fn compile_assign(
    scope: &mut Scope,
    next_slot: &mut usize,
    ops: &mut Vec<IrOp>,
    stmt: &AssignStmt,
) -> (r: Result<(), CompileError>)
    ensures
        stmt_lowering_post(
            old(scope)@,
            *old(next_slot) as nat,
            old(ops)@,
            final(scope)@,
            *final(next_slot) as nat,
            final(ops)@,
            r,
            spec_compile_assign(old(scope)@, *old(next_slot) as nat, *stmt),
        ),
{
    let slot = match scope.resolve(&stmt.variable) {
        Some(s) => s,
        None => {
            return Err(CompileError::AssignToUndeclared(stmt.variable.clone()));
        },
    };
    let (v, t) = match compile_expr(scope, &stmt.expr) {
        Ok(x) => x,
        Err(e) => {
            return Err(e);
        },
    };
    if t != IrType::I64 {
        return Err(CompileError::TypeMismatch);
    }
    let ghost ops0 = ops@;
    let op = IrOp::Store(slot, v);
    proof {
        lemma_ops_view_push(ops0, op);
    }
    ops.push(op);
    proof {
        assert(ops@.skip(ops0.len() as int) =~= seq![op]);
        assert(seq![op].drop_last() =~= Seq::<IrOp>::empty());
        assert(ops_view(Seq::<IrOp>::empty()) == Seq::<SpecOp>::empty());
        assert(ops_view(seq![op]) =~= seq![op_view(op)]);
        assert(ops@.subrange(0, ops0.len() as int) =~= ops0);
    }
    Ok(())
}

} // verus!
