//! Expression lowering: a pure function from a scope and an expression to a
//! value tree of the intermediate representation, together with its type.
//!
//! Numbers become constants; a variable resolves to its nearest slot and
//! loads it; `+`, `-` and `*` become wrapping signed 64-bit arithmetic; `/`
//! becomes signed truncating division whose zero and overflow cases are left
//! to the run-time trap; `==` and `!=` become comparisons producing a
//! boolean; a call lowers its arguments left to right. Operands of
//! arithmetic, comparisons and calls must be 64-bit integers — a boolean
//! there is a [`CompileError::TypeMismatch`], checked where the value is
//! consumed.

use vstd::prelude::*;

use crate::ast::{Expr, Opcode};
use crate::ir::{
    lemma_values_view_push, value_view, values_view, ArithKind, CmpKind, IrType, IrValue,
    SpecValue,
};
use crate::scope::Scope;
use super::{CompileError, SpecCompileError};

verus! {

/// What lowering one expression under a scope map yields: a value tree and
/// its type, or the first error.
pub open spec fn spec_compile_expr(m: Map<Seq<char>, nat>, e: Expr) -> Result<
    (SpecValue, IrType),
    SpecCompileError,
>
    decreases e,
{
    match e {
        Expr::Number(n) => Ok((SpecValue::Const(n), IrType::I64)),
        Expr::Variable(name) => if m.contains_key(name@) {
            Ok((SpecValue::Load(m[name@]), IrType::I64))
        } else {
            Err(SpecCompileError::UndeclaredVariable(name@))
        },
        Expr::Op(l, op, r) => match spec_compile_expr(m, *l) {
            Ok((lv, lt)) => match spec_compile_expr(m, *r) {
                Ok((rv, rt)) => if lt != IrType::I64 || rt != IrType::I64 {
                    Err(SpecCompileError::TypeMismatch)
                } else {
                    match op {
                        Opcode::Mul => Ok(
                            (
                                SpecValue::Arith(ArithKind::Mul, Box::new(lv), Box::new(rv)),
                                IrType::I64,
                            ),
                        ),
                        Opcode::Div => Ok(
                            (
                                SpecValue::Arith(ArithKind::Div, Box::new(lv), Box::new(rv)),
                                IrType::I64,
                            ),
                        ),
                        Opcode::Add => Ok(
                            (
                                SpecValue::Arith(ArithKind::Add, Box::new(lv), Box::new(rv)),
                                IrType::I64,
                            ),
                        ),
                        Opcode::Sub => Ok(
                            (
                                SpecValue::Arith(ArithKind::Sub, Box::new(lv), Box::new(rv)),
                                IrType::I64,
                            ),
                        ),
                        Opcode::Eq => Ok(
                            (
                                SpecValue::Cmp(CmpKind::Eq, Box::new(lv), Box::new(rv)),
                                IrType::I1,
                            ),
                        ),
                        Opcode::Neq => Ok(
                            (
                                SpecValue::Cmp(CmpKind::Ne, Box::new(lv), Box::new(rv)),
                                IrType::I1,
                            ),
                        ),
                    }
                },
                Err(e2) => Err(e2),
            },
            Err(e2) => Err(e2),
        },
        Expr::Call { target, args } => match spec_compile_args(m, args@) {
            Ok(vals) => Ok((SpecValue::Call(target@, vals), IrType::I64)),
            Err(e2) => Err(e2),
        },
    }
}

/// Lowering a row of call arguments, left to right; each must be a 64-bit
/// integer, and the first error wins.
pub open spec fn spec_compile_args(m: Map<Seq<char>, nat>, args: Seq<Expr>) -> Result<
    Seq<SpecValue>,
    SpecCompileError,
>
    decreases args,
{
    if args.len() == 0 {
        Ok(Seq::empty())
    } else {
        match spec_compile_expr(m, args.first()) {
            Ok((v, t)) => if t != IrType::I64 {
                Err(SpecCompileError::TypeMismatch)
            } else {
                match spec_compile_args(m, args.drop_first()) {
                    Ok(rest) => Ok(seq![v] + rest),
                    Err(e) => Err(e),
                }
            },
            Err(e) => Err(e),
        }
    }
}

/// How an executable lowering result corresponds to the spec compiler's:
/// same success or failure, same value tree, type and error.
pub open spec fn expr_lowering_matches(
    r: Result<(IrValue, IrType), CompileError>,
    s: Result<(SpecValue, IrType), SpecCompileError>,
) -> bool {
    match (r, s) {
        (Ok(rv), Ok(sv)) => value_view(rv.0) == sv.0 && rv.1 == sv.1,
        (Err(e), Err(se)) => e@ == se,
        _ => false,
    }
}

/// Lowers a right-hand-side expression such as `2 + x * 3` into a value
/// tree, returning its type alongside.
pub fn compile_expr(scope: &Scope, expr: &Expr) -> (r: Result<(IrValue, IrType), CompileError>)
    ensures
        expr_lowering_matches(r, spec_compile_expr(scope@, *expr)),
    decreases *expr,
{
    match expr {
        Expr::Number(value) => Ok((IrValue::Const(*value), IrType::I64)),
        Expr::Variable(name) => match scope.resolve(name) {
            Some(slot) => Ok((IrValue::Load(slot), IrType::I64)),
            None => Err(CompileError::UndeclaredVariable(name.clone())),
        },
        Expr::Op(lhs_expr, opcode, rhs_expr) => {
            let (lv, lt) = match compile_expr(scope, lhs_expr) {
                Ok(x) => x,
                Err(e) => {
                    return Err(e);
                },
            };
            let (rv, rt) = match compile_expr(scope, rhs_expr) {
                Ok(x) => x,
                Err(e) => {
                    return Err(e);
                },
            };
            if lt != IrType::I64 || rt != IrType::I64 {
                return Err(CompileError::TypeMismatch);
            }
            match opcode {
                Opcode::Mul => Ok(
                    (IrValue::Arith(ArithKind::Mul, Box::new(lv), Box::new(rv)), IrType::I64),
                ),
                Opcode::Div => Ok(
                    (IrValue::Arith(ArithKind::Div, Box::new(lv), Box::new(rv)), IrType::I64),
                ),
                Opcode::Add => Ok(
                    (IrValue::Arith(ArithKind::Add, Box::new(lv), Box::new(rv)), IrType::I64),
                ),
                Opcode::Sub => Ok(
                    (IrValue::Arith(ArithKind::Sub, Box::new(lv), Box::new(rv)), IrType::I64),
                ),
                Opcode::Eq => Ok(
                    (IrValue::Cmp(CmpKind::Eq, Box::new(lv), Box::new(rv)), IrType::I1),
                ),
                Opcode::Neq => Ok(
                    (IrValue::Cmp(CmpKind::Ne, Box::new(lv), Box::new(rv)), IrType::I1),
                ),
            }
        },
        Expr::Call { target, args } => {
            let ghost all = args@;
            let mut vals: Vec<IrValue> = Vec::new();
            let n = args.len();
            proof {
                assert(all.skip(0) =~= all);
                if spec_compile_args(scope@, all) is Ok {
                    let rest0 = spec_compile_args(scope@, all)->Ok_0;
                    assert(values_view(vals@) + rest0 =~= rest0);
                }
            }
            for i in 0..n
                invariant
                    n == args.len(),
                    all == args@,
                    *expr is Call,
                    expr->Call_args == *args,
                    spec_compile_args(scope@, all) == (match spec_compile_args(
                        scope@,
                        all.skip(i as int),
                    ) {
                        Ok(rest) => Ok::<_, SpecCompileError>(values_view(vals@) + rest),
                        Err(e) => Err(e),
                    }),
            {
                proof {
                    assert(all.skip(i as int).first() == all[i as int]);
                    assert(all.skip(i as int).drop_first() =~= all.skip(i + 1));
                    assert(*args == expr->Call_args);
                    assert(decreases_to!(*expr => expr->Call_args));
                    assert(decreases_to!(expr->Call_args => expr->Call_args@));
                    assert(decreases_to!(expr->Call_args@ => expr->Call_args@[i as int]));
                    assert(all[i as int] == expr->Call_args@[i as int]);
                }
                match compile_expr(scope, &args[i]) {
                    Ok((v, t)) => {
                        if t != IrType::I64 {
                            return Err(CompileError::TypeMismatch);
                        }
                        let ghost before = vals@;
                        vals.push(v);
                        proof {
                            lemma_values_view_push(before, v);
                            if spec_compile_args(scope@, all.skip(i + 1)) is Ok {
                                let rest = spec_compile_args(scope@, all.skip(i + 1))->Ok_0;
                                assert(values_view(before).push(value_view(v)) + rest
                                    =~= values_view(before) + (seq![value_view(v)] + rest));
                            }
                        }
                    },
                    Err(e) => {
                        return Err(e);
                    },
                }
            }
            proof {
                assert(all.skip(n as int) =~= Seq::<Expr>::empty());
                if spec_compile_args(scope@, all) is Ok {
                    assert(values_view(vals@) + Seq::<SpecValue>::empty() =~= values_view(vals@));
                }
            }
            Ok((IrValue::Call(target.clone(), vals), IrType::I64))
        },
    }
}

} // verus!
