//! The language-level laws of the code generator, proved against the spec
//! compiler and the reference evaluator.
//!
//! Each proof function here states one guarantee of the whole pipeline —
//! lowering a program and invoking the result — for every value of its
//! parameters: arithmetic and comparison behavior, the non-leaking of block
//! scopes, the visibility of assignments made inside a block, and the
//! determinism of compilation.

use vstd::prelude::*;

use crate::ast::{Expr, Function, Opcode, Program, Statement};
use crate::codegen::expressions::spec_compile_expr;
use crate::codegen::{
    compile_program, spec_compile_function, spec_compile_functions, spec_compile_program,
    spec_compile_stmt, spec_compile_stmts, spec_params_map, CompileError, SpecCompileError,
};
use crate::eval::{
    spec_arith, spec_call, spec_cmp, spec_eval_value, spec_exec_op, spec_exec_ops,
    spec_init_store, spec_run, RunValue,
};
use crate::ir::{ArithKind, CmpKind, IrModule, IrType, SpecFunction, SpecModule, SpecOp, SpecValue};

verus! {

/// Lowering an `if` or `while` statement hands the surrounding scope back
/// unchanged: bindings introduced inside the nested blocks never leak out,
/// and a name unbound before the statement is still unresolvable after it —
/// a reference to it is an `UndeclaredVariable` error, never a stale read.
pub proof fn lemma_scope_non_leak(
    m: Map<Seq<char>, nat>,
    next: nat,
    s: Statement,
    x: String,
)
    requires
        s is If || s is While,
        spec_compile_stmt(m, next, s) is Ok,
        !m.contains_key(x@),
    ensures
        spec_compile_stmt(m, next, s)->Ok_0.0 == m,
        spec_compile_expr(m, Expr::Variable(x)) == Err::<(crate::ir::SpecValue, crate::ir::IrType),
            SpecCompileError,
        >(SpecCompileError::UndeclaredVariable(x@)),
{
}

/// Compilation is deterministic: two results of compiling one program agree
/// — both succeed with modules of the same shape, which the reference
/// evaluator cannot tell apart on any invocation, or both fail with the
/// same error.
pub proof fn lemma_compile_deterministic(
    p: Program,
    r1: Result<IrModule, CompileError>,
    r2: Result<IrModule, CompileError>,
)
    requires
        call_ensures(compile_program, (&p,), r1),
        call_ensures(compile_program, (&p,), r2),
    ensures
        r1 is Ok <==> r2 is Ok,
        r1 is Ok ==> r1->Ok_0@ == r2->Ok_0@,
        r1 is Ok ==> forall|name: Seq<char>, args: Seq<i64>, fuel: nat|
            spec_run(r1->Ok_0@, name, args, fuel) == spec_run(r2->Ok_0@, name, args, fuel),
        r1 is Err ==> r1->Err_0@ == r2->Err_0@,
{
}

/// The scope a two-parameter function starts from, written out.
pub proof fn lemma_params_map_two(args: Seq<String>)
    requires
        args.len() == 2,
    ensures
        spec_params_map(args) == Map::<Seq<char>, nat>::empty().insert(args[0]@, 0).insert(
            args[1]@,
            1,
        ),
{
    assert(args.drop_last().drop_last() =~= Seq::<String>::empty());
    assert(args.drop_last().last() == args[0]);
    assert(args.last() == args[1]);
    reveal_with_fuel(spec_params_map, 3);
}

/// A one-function program compiles to the one-function module.
pub proof fn lemma_single_function_module(p: Program)
    requires
        p.functions@.len() == 1,
        spec_compile_function(p.functions@[0]) is Ok,
    ensures
        spec_compile_program(p) is Ok,
        spec_compile_program(p)->Ok_0 == (SpecModule {
            functions: seq![spec_compile_function(p.functions@[0])->Ok_0],
        }),
{
    let fs = p.functions@;
    assert(fs.first() == fs[0]);
    assert(fs.drop_first() =~= Seq::<Function>::empty());
    reveal_with_fuel(spec_compile_functions, 2);
    let sf = spec_compile_function(fs[0])->Ok_0;
    assert(seq![sf] + Seq::<SpecFunction>::empty() =~= seq![sf]);
}

/// Invoking the one function of a one-function module by its name, with the
/// right arity, is one call of it.
pub proof fn lemma_run_single(sf: SpecFunction, args: Seq<i64>, fuel: nat)
    requires
        args.len() == sf.params,
    ensures
        spec_run(SpecModule { functions: seq![sf] }, sf.name, args, fuel) == spec_call(
            SpecModule { functions: seq![sf] },
            sf,
            args,
            fuel,
        ),
{
    assert(seq![sf].first() == sf);
}

/// The shape of a two-argument function whose body is `return p0 <op> p1;`
/// over its two (distinctly named) parameters.
pub open spec fn is_binop_fn(f: Function, op: Opcode) -> bool {
    let e = f.body.stmts@[0]->Return_0.expr;
    &&& f.args@.len() == 2
    &&& f.args@[0]@ != f.args@[1]@
    &&& f.body.stmts@.len() == 1
    &&& f.body.stmts@[0] is Return
    &&& e is Op
    &&& e->Op_1 == op
    &&& (*e->Op_0) is Variable
    &&& (*e->Op_0)->Variable_0@ == f.args@[0]@
    &&& (*e->Op_2) is Variable
    &&& (*e->Op_2)->Variable_0@ == f.args@[1]@
}

/// Arithmetic correctness: compiling a function that returns `p0 <op> p1`
/// and invoking it on any `a, b` yields exactly the signed 64-bit result —
/// two's-complement wraparound for `+`, `-` and `*` (no trap), and for `/`
/// the truncating quotient, division by zero and `i64::MIN / -1` faulting
/// in the reference evaluator (implementation-defined at the native level).
pub proof fn lemma_arith_correct(p: Program, op: Opcode, a: i64, b: i64, fuel: nat)
    requires
        p.functions@.len() == 1,
        is_binop_fn(p.functions@[0], op),
        op != Opcode::Eq && op != Opcode::Neq,
    ensures
        spec_compile_program(p) is Ok,
        spec_run(spec_compile_program(p)->Ok_0, p.functions@[0].name@, seq![a, b], fuel) == (
        match op {
            Opcode::Add => Some(a.wrapping_add(b)),
            Opcode::Sub => Some(a.wrapping_sub(b)),
            Opcode::Mul => Some(a.wrapping_mul(b)),
            Opcode::Div => a.checked_div(b),
            _ => None,
        }),
{
    let f = p.functions@[0];
    lemma_params_map_two(f.args@);
    let m0 = spec_params_map(f.args@);
    let x = f.args@[0]@;
    let y = f.args@[1]@;
    assert(m0.contains_key(x) && m0[x] == 0);
    assert(m0.contains_key(y) && m0[y] == 1);
    let stmt = f.body.stmts@[0];
    match stmt {
        Statement::Return(ret) => match ret.expr {
            Expr::Op(l, o, rr) => {
                assert(spec_compile_expr(m0, *l) == Ok::<_, SpecCompileError>(
                    (SpecValue::Load(0), IrType::I64),
                ));
                assert(spec_compile_expr(m0, *rr) == Ok::<_, SpecCompileError>(
                    (SpecValue::Load(1), IrType::I64),
                ));
                let kind = match op {
                    Opcode::Add => ArithKind::Add,
                    Opcode::Sub => ArithKind::Sub,
                    Opcode::Mul => ArithKind::Mul,
                    _ => ArithKind::Div,
                };
                let v = SpecValue::Arith(
                    kind,
                    Box::new(SpecValue::Load(0)),
                    Box::new(SpecValue::Load(1)),
                );
                assert(spec_compile_expr(m0, ret.expr) == Ok::<_, SpecCompileError>(
                    (v, IrType::I64),
                ));
                let stmts = f.body.stmts@;
                assert(stmts.first() == stmt);
                assert(stmts.drop_first() =~= Seq::<Statement>::empty());
                reveal_with_fuel(spec_compile_stmts, 2);
                assert(seq![SpecOp::Return(v)] + Seq::<SpecOp>::empty() =~= seq![
                    SpecOp::Return(v),
                ]);
                assert(spec_compile_stmts(m0, 2, stmts) == Ok::<_, SpecCompileError>(
                    (m0, 2nat, seq![SpecOp::Return(v)]),
                ));
                let sf = SpecFunction {
                    name: f.name@,
                    params: 2,
                    slots: 2,
                    body: seq![SpecOp::Return(v)],
                };
                assert(spec_compile_function(f) == Ok::<_, SpecCompileError>(sf));
                lemma_single_function_module(p);
                let sm = SpecModule { functions: seq![sf] };
                lemma_run_single(sf, seq![a, b], fuel);
                let st0 = spec_init_store(seq![a, b], 2);
                assert(st0.len() == 2 && st0[0] == Some(a) && st0[1] == Some(b));
                assert(spec_eval_value(sm, st0, SpecValue::Load(0), fuel) == Some(
                    RunValue::Int(a),
                ));
                assert(spec_eval_value(sm, st0, SpecValue::Load(1), fuel) == Some(
                    RunValue::Int(b),
                ));
                assert(spec_eval_value(sm, st0, v, fuel) == (match spec_arith(kind, a, b) {
                    Some(c) => Some(RunValue::Int(c)),
                    None => None,
                }));
                assert(seq![SpecOp::Return(v)].first() == SpecOp::Return(v));
                assert(spec_call(sm, sf, seq![a, b], fuel) == (match spec_arith(kind, a, b) {
                    Some(c) => Some(c),
                    None => None,
                }));
            },
            _ => {
                assert(false);
            },
        },
        _ => {
            assert(false);
        },
    }
}

/// The shape of a two-argument function whose body is
/// `if (p0 <op> p1) { return ct; } else { return ce; }`
/// over its two (distinctly named) parameters.
pub open spec fn is_cmp_fn(f: Function, op: Opcode, ct: i64, ce: i64) -> bool {
    let s = f.body.stmts@[0];
    let c = s->If_0.cond;
    &&& f.args@.len() == 2
    &&& f.args@[0]@ != f.args@[1]@
    &&& f.body.stmts@.len() == 1
    &&& s is If
    &&& c is Op
    &&& c->Op_1 == op
    &&& (*c->Op_0) is Variable
    &&& (*c->Op_0)->Variable_0@ == f.args@[0]@
    &&& (*c->Op_2) is Variable
    &&& (*c->Op_2)->Variable_0@ == f.args@[1]@
    &&& s->If_0.then_block.stmts@.len() == 1
    &&& s->If_0.then_block.stmts@[0] is Return
    &&& s->If_0.then_block.stmts@[0]->Return_0.expr is Number
    &&& s->If_0.then_block.stmts@[0]->Return_0.expr->Number_0 == ct
    &&& s->If_0.else_block is Some
    &&& s->If_0.else_block->0.stmts@.len() == 1
    &&& s->If_0.else_block->0.stmts@[0] is Return
    &&& s->If_0.else_block->0.stmts@[0]->Return_0.expr is Number
    &&& s->If_0.else_block->0.stmts@[0]->Return_0.expr->Number_0 == ce
}

/// Comparison correctness: `==` selects the then branch exactly when the
/// arguments are equal, `!=` exactly when they differ, for all `a, b`.
pub proof fn lemma_cmp_correct(p: Program, op: Opcode, ct: i64, ce: i64, a: i64, b: i64, fuel: nat)
    requires
        p.functions@.len() == 1,
        is_cmp_fn(p.functions@[0], op, ct, ce),
        op == Opcode::Eq || op == Opcode::Neq,
    ensures
        spec_compile_program(p) is Ok,
        spec_run(spec_compile_program(p)->Ok_0, p.functions@[0].name@, seq![a, b], fuel) == Some(
            if (op == Opcode::Eq && a == b) || (op == Opcode::Neq && a != b) {
                ct
            } else {
                ce
            },
        ),
{
    let f = p.functions@[0];
    lemma_params_map_two(f.args@);
    let m0 = spec_params_map(f.args@);
    assert(m0.contains_key(f.args@[0]@) && m0[f.args@[0]@] == 0);
    assert(m0.contains_key(f.args@[1]@) && m0[f.args@[1]@] == 1);
    let s = f.body.stmts@[0];
    let i = s->If_0;
    let kind = if op == Opcode::Eq {
        CmpKind::Eq
    } else {
        CmpKind::Ne
    };
    assert(spec_compile_expr(m0, *i.cond->Op_0) == Ok::<_, SpecCompileError>(
        (SpecValue::Load(0), IrType::I64),
    ));
    assert(spec_compile_expr(m0, *i.cond->Op_2) == Ok::<_, SpecCompileError>(
        (SpecValue::Load(1), IrType::I64),
    ));
    let cv = SpecValue::Cmp(kind, Box::new(SpecValue::Load(0)), Box::new(SpecValue::Load(1)));
    assert(spec_compile_expr(m0, i.cond) == Ok::<_, SpecCompileError>((cv, IrType::I1)));

    // the then region
    let tstmts = i.then_block.stmts@;
    assert(spec_compile_expr(m0, tstmts[0]->Return_0.expr) == Ok::<_, SpecCompileError>(
        (SpecValue::Const(ct), IrType::I64),
    ));
    assert(tstmts.first() == tstmts[0]);
    assert(tstmts.drop_first() =~= Seq::<Statement>::empty());
    reveal_with_fuel(spec_compile_stmts, 2);
    assert(seq![SpecOp::Return(SpecValue::Const(ct))] + Seq::<SpecOp>::empty() =~= seq![
        SpecOp::Return(SpecValue::Const(ct)),
    ]);
    assert(spec_compile_stmts(m0, 2, tstmts) == Ok::<_, SpecCompileError>(
        (m0, 2nat, seq![SpecOp::Return(SpecValue::Const(ct))]),
    ));

    // the else region
    let estmts = i.else_block->0.stmts@;
    assert(spec_compile_expr(m0, estmts[0]->Return_0.expr) == Ok::<_, SpecCompileError>(
        (SpecValue::Const(ce), IrType::I64),
    ));
    assert(estmts.first() == estmts[0]);
    assert(estmts.drop_first() =~= Seq::<Statement>::empty());
    assert(seq![SpecOp::Return(SpecValue::Const(ce))] + Seq::<SpecOp>::empty() =~= seq![
        SpecOp::Return(SpecValue::Const(ce)),
    ]);
    assert(spec_compile_stmts(m0, 2, estmts) == Ok::<_, SpecCompileError>(
        (m0, 2nat, seq![SpecOp::Return(SpecValue::Const(ce))]),
    ));

    let opv = SpecOp::If(
        cv,
        seq![SpecOp::Return(SpecValue::Const(ct))],
        seq![SpecOp::Return(SpecValue::Const(ce))],
    );
    assert(spec_compile_stmt(m0, 2, s) == Ok::<_, SpecCompileError>((m0, 2nat, seq![opv])));

    let stmts = f.body.stmts@;
    assert(stmts.first() == s);
    assert(stmts.drop_first() =~= Seq::<Statement>::empty());
    assert(seq![opv] + Seq::<SpecOp>::empty() =~= seq![opv]);
    assert(spec_compile_stmts(m0, 2, stmts) == Ok::<_, SpecCompileError>((m0, 2nat, seq![opv])));
    let sf = SpecFunction { name: f.name@, params: 2, slots: 2, body: seq![opv] };
    assert(spec_compile_function(f) == Ok::<_, SpecCompileError>(sf));
    lemma_single_function_module(p);
    let sm = SpecModule { functions: seq![sf] };
    lemma_run_single(sf, seq![a, b], fuel);

    // running it
    let st0 = spec_init_store(seq![a, b], 2);
    assert(st0.len() == 2 && st0[0] == Some(a) && st0[1] == Some(b));
    assert(spec_eval_value(sm, st0, SpecValue::Load(0), fuel) == Some(RunValue::Int(a)));
    assert(spec_eval_value(sm, st0, SpecValue::Load(1), fuel) == Some(RunValue::Int(b)));
    let cond_holds = spec_cmp(kind, a, b);
    assert(spec_eval_value(sm, st0, cv, fuel) == Some(RunValue::Bool(cond_holds)));
    assert(seq![SpecOp::Return(SpecValue::Const(ct))].first() == SpecOp::Return(
        SpecValue::Const(ct),
    ));
    assert(seq![SpecOp::Return(SpecValue::Const(ce))].first() == SpecOp::Return(
        SpecValue::Const(ce),
    ));
    assert(spec_eval_value(sm, st0, SpecValue::Const(ct), fuel) == Some(RunValue::Int(ct)));
    assert(spec_eval_value(sm, st0, SpecValue::Const(ce), fuel) == Some(RunValue::Int(ce)));
    assert(spec_exec_op(sm, st0, SpecOp::Return(SpecValue::Const(ct)), fuel) == Some(
        (st0, Some(ct)),
    ));
    assert(spec_exec_op(sm, st0, SpecOp::Return(SpecValue::Const(ce)), fuel) == Some(
        (st0, Some(ce)),
    ));
    assert(spec_exec_ops(sm, st0, seq![SpecOp::Return(SpecValue::Const(ct))], fuel) == Some(
        (st0, Some(ct)),
    ));
    assert(spec_exec_ops(sm, st0, seq![SpecOp::Return(SpecValue::Const(ce))], fuel) == Some(
        (st0, Some(ce)),
    ));
    assert(seq![opv].first() == opv);
    assert(spec_call(sm, sf, seq![a, b], fuel) == Some(
        if cond_holds {
            ct
        } else {
            ce
        },
    ));
}

/// `a == a` always selects the then branch.
pub proof fn lemma_eq_reflexive(p: Program, ct: i64, ce: i64, a: i64, fuel: nat)
    requires
        p.functions@.len() == 1,
        is_cmp_fn(p.functions@[0], Opcode::Eq, ct, ce),
    ensures
        spec_compile_program(p) is Ok,
        spec_run(spec_compile_program(p)->Ok_0, p.functions@[0].name@, seq![a, a], fuel) == Some(
            ct,
        ),
{
    lemma_cmp_correct(p, Opcode::Eq, ct, ce, a, a, fuel);
}

/// `a == b` and `a != b` are complementary: on the same arguments, the
/// `==` program and the `!=` program select opposite branches, for all
/// `a, b`.
pub proof fn lemma_cmp_complementary(
    pe: Program,
    pn: Program,
    ct: i64,
    ce: i64,
    a: i64,
    b: i64,
    fuel: nat,
)
    requires
        pe.functions@.len() == 1,
        is_cmp_fn(pe.functions@[0], Opcode::Eq, ct, ce),
        pn.functions@.len() == 1,
        is_cmp_fn(pn.functions@[0], Opcode::Neq, ct, ce),
    ensures
        spec_compile_program(pe) is Ok,
        spec_compile_program(pn) is Ok,
        spec_run(spec_compile_program(pe)->Ok_0, pe.functions@[0].name@, seq![a, b], fuel) == Some(
            if a == b {
                ct
            } else {
                ce
            },
        ),
        spec_run(spec_compile_program(pn)->Ok_0, pn.functions@[0].name@, seq![a, b], fuel) == Some(
            if a == b {
                ce
            } else {
                ct
            },
        ),
{
    lemma_cmp_correct(pe, Opcode::Eq, ct, ce, a, b, fuel);
    lemma_cmp_correct(pn, Opcode::Neq, ct, ce, a, b, fuel);
}

/// The scope a one-parameter function starts from, written out.
pub proof fn lemma_params_map_one(args: Seq<String>)
    requires
        args.len() == 1,
    ensures
        spec_params_map(args) == Map::<Seq<char>, nat>::empty().insert(args[0]@, 0),
{
    assert(args.drop_last() =~= Seq::<String>::empty());
    assert(args.last() == args[0]);
    reveal_with_fuel(spec_params_map, 2);
}

/// The shape of a one-argument function whose body is
/// `let x = c0; if (p0 == p0) { x = c1; } return x;`
/// with `x` named apart from the parameter.
pub open spec fn is_assign_vis_fn(f: Function, c0: i64, c1: i64) -> bool {
    let s0 = f.body.stmts@[0];
    let s1 = f.body.stmts@[1];
    let s2 = f.body.stmts@[2];
    let c = s1->If_0.cond;
    let asg = s1->If_0.then_block.stmts@[0];
    &&& f.args@.len() == 1
    &&& f.body.stmts@.len() == 3
    &&& s0 is Let
    &&& s0->Let_0.variable@ != f.args@[0]@
    &&& s0->Let_0.expr is Number
    &&& s0->Let_0.expr->Number_0 == c0
    &&& s1 is If
    &&& c is Op
    &&& c->Op_1 == Opcode::Eq
    &&& (*c->Op_0) is Variable
    &&& (*c->Op_0)->Variable_0@ == f.args@[0]@
    &&& (*c->Op_2) is Variable
    &&& (*c->Op_2)->Variable_0@ == f.args@[0]@
    &&& s1->If_0.then_block.stmts@.len() == 1
    &&& asg is Assign
    &&& asg->Assign_0.variable@ == s0->Let_0.variable@
    &&& asg->Assign_0.expr is Number
    &&& asg->Assign_0.expr->Number_0 == c1
    &&& s1->If_0.else_block is None
    &&& s2 is Return
    &&& s2->Return_0.expr is Variable
    &&& s2->Return_0.expr->Variable_0@ == s0->Let_0.variable@
}

/// Assignment visibility: a variable bound outside an `if`, reassigned
/// inside its block, retains the reassigned value after the block exits —
/// the assignment writes through the existing slot, so invoking the
/// function returns the value assigned inside the block, for all arguments.
pub proof fn lemma_assign_visible(p: Program, a: i64, c0: i64, c1: i64, fuel: nat)
    requires
        p.functions@.len() == 1,
        is_assign_vis_fn(p.functions@[0], c0, c1),
    ensures
        spec_compile_program(p) is Ok,
        spec_run(spec_compile_program(p)->Ok_0, p.functions@[0].name@, seq![a], fuel) == Some(c1),
{
    let f = p.functions@[0];
    lemma_params_map_one(f.args@);
    let m0 = spec_params_map(f.args@);
    let av = f.args@[0]@;
    let xv = f.body.stmts@[0]->Let_0.variable@;
    assert(m0.contains_key(av) && m0[av] == 0);
    assert(!m0.contains_key(xv));
    let stmts = f.body.stmts@;
    let s0 = stmts[0];
    let s1 = stmts[1];
    let s2 = stmts[2];

    // `let x = c0;` stores into the fresh slot 1 and binds x to it
    assert(spec_compile_expr(m0, s0->Let_0.expr) == Ok::<_, SpecCompileError>(
        (SpecValue::Const(c0), IrType::I64),
    ));
    let m1 = m0.insert(xv, 1);
    let op0 = SpecOp::Store(1, SpecValue::Const(c0));
    assert(spec_compile_stmt(m0, 1, s0) == Ok::<_, SpecCompileError>((m1, 2nat, seq![op0])));

    // the condition `p0 == p0` reads slot 0 twice
    assert(m1.contains_key(av) && m1[av] == 0);
    assert(m1.contains_key(xv) && m1[xv] == 1);
    let c = s1->If_0.cond;
    assert(spec_compile_expr(m1, *c->Op_0) == Ok::<_, SpecCompileError>(
        (SpecValue::Load(0), IrType::I64),
    ));
    assert(spec_compile_expr(m1, *c->Op_2) == Ok::<_, SpecCompileError>(
        (SpecValue::Load(0), IrType::I64),
    ));
    let cv = SpecValue::Cmp(CmpKind::Eq, Box::new(SpecValue::Load(0)), Box::new(SpecValue::Load(0)));
    assert(spec_compile_expr(m1, c) == Ok::<_, SpecCompileError>((cv, IrType::I1)));

    // `x = c1;` inside the block writes through the existing slot 1
    let asg = s1->If_0.then_block.stmts@[0];
    assert(spec_compile_expr(m1, asg->Assign_0.expr) == Ok::<_, SpecCompileError>(
        (SpecValue::Const(c1), IrType::I64),
    ));
    let opw = SpecOp::Store(1, SpecValue::Const(c1));
    assert(spec_compile_stmt(m1, 2, asg) == Ok::<_, SpecCompileError>((m1, 2nat, seq![opw])));
    let tstmts = s1->If_0.then_block.stmts@;
    assert(tstmts.first() == asg);
    assert(tstmts.drop_first() =~= Seq::<Statement>::empty());
    reveal_with_fuel(spec_compile_stmts, 2);
    assert(seq![opw] + Seq::<SpecOp>::empty() =~= seq![opw]);
    assert(spec_compile_stmts(m1, 2, tstmts) == Ok::<_, SpecCompileError>((m1, 2nat, seq![opw])));
    let op1 = SpecOp::If(cv, seq![opw], Seq::empty());
    assert(spec_compile_stmt(m1, 2, s1) == Ok::<_, SpecCompileError>((m1, 2nat, seq![op1])));

    // `return x;` reads slot 1
    let op2 = SpecOp::Return(SpecValue::Load(1));
    assert(spec_compile_stmt(m1, 2, s2) == Ok::<_, SpecCompileError>((m1, 2nat, seq![op2])));

    // the whole body
    assert(stmts.first() == s0);
    assert(stmts.drop_first().first() == s1);
    assert(stmts.drop_first().drop_first() =~= stmts.skip(2));
    assert(stmts.skip(2).first() == s2);
    assert(stmts.skip(2).drop_first() =~= Seq::<Statement>::empty());
    reveal_with_fuel(spec_compile_stmts, 4);
    let body = seq![op0, op1, op2];
    assert(seq![op0] + (seq![op1] + (seq![op2] + Seq::<SpecOp>::empty())) =~= body);
    assert(spec_compile_stmts(m0, 1, stmts) == Ok::<_, SpecCompileError>((m1, 2nat, body)));
    let sf = SpecFunction { name: f.name@, params: 1, slots: 2, body: body };
    assert(spec_compile_function(f) == Ok::<_, SpecCompileError>(sf));
    lemma_single_function_module(p);
    let sm = SpecModule { functions: seq![sf] };
    lemma_run_single(sf, seq![a], fuel);

    // running it
    let st0 = spec_init_store(seq![a], 2);
    assert(st0.len() == 2 && st0[0] == Some(a) && st0[1] == None::<i64>);
    assert(spec_eval_value(sm, st0, SpecValue::Const(c0), fuel) == Some(RunValue::Int(c0)));
    let st1 = st0.update(1, Some(c0));
    assert(spec_exec_op(sm, st0, op0, fuel) == Some((st1, None::<i64>)));
    assert(st1[0] == Some(a));
    assert(spec_eval_value(sm, st1, SpecValue::Load(0), fuel) == Some(RunValue::Int(a)));
    assert(spec_eval_value(sm, st1, cv, fuel) == Some(RunValue::Bool(true)));
    assert(spec_eval_value(sm, st1, SpecValue::Const(c1), fuel) == Some(RunValue::Int(c1)));
    let st2 = st1.update(1, Some(c1));
    assert(spec_exec_op(sm, st1, opw, fuel) == Some((st2, None::<i64>)));
    assert(seq![opw].first() == opw);
    assert(seq![opw].drop_first() =~= Seq::<SpecOp>::empty());
    assert(spec_exec_ops(sm, st2, Seq::<SpecOp>::empty(), fuel) == Some((st2, None::<i64>)));
    assert(spec_exec_ops(sm, st1, seq![opw], fuel) == Some((st2, None::<i64>)));
    assert(spec_exec_op(sm, st1, op1, fuel) == Some((st2, None::<i64>)));
    assert(st2[1] == Some(c1));
    assert(spec_eval_value(sm, st2, SpecValue::Load(1), fuel) == Some(RunValue::Int(c1)));
    assert(spec_exec_op(sm, st2, op2, fuel) == Some((st2, Some(c1))));
    assert(body.first() == op0);
    assert(body.drop_first().first() == op1);
    assert(body.drop_first().drop_first() =~= body.skip(2));
    assert(body.skip(2).first() == op2);
    assert(spec_exec_ops(sm, st0, body, fuel) == Some((st2, Some(c1))));
    assert(spec_call(sm, sf, seq![a], fuel) == Some(c1));
}

/// The shape of a one-argument function whose body is
/// `let x = c0; let go = 0; while (go == 0) { x = c1; go = 1; } return x;`
/// with `x`, `go` and the parameter named apart.
pub open spec fn is_assign_vis_while_fn(f: Function, c0: i64, c1: i64) -> bool {
    let s0 = f.body.stmts@[0];
    let s1 = f.body.stmts@[1];
    let s2 = f.body.stmts@[2];
    let s3 = f.body.stmts@[3];
    let c = s2->While_0.cond;
    let b0 = s2->While_0.body.stmts@[0];
    let b1 = s2->While_0.body.stmts@[1];
    &&& f.args@.len() == 1
    &&& f.body.stmts@.len() == 4
    &&& s0 is Let
    &&& s0->Let_0.variable@ != f.args@[0]@
    &&& s0->Let_0.expr is Number
    &&& s0->Let_0.expr->Number_0 == c0
    &&& s1 is Let
    &&& s1->Let_0.variable@ != f.args@[0]@
    &&& s1->Let_0.variable@ != s0->Let_0.variable@
    &&& s1->Let_0.expr is Number
    &&& s1->Let_0.expr->Number_0 == 0
    &&& s2 is While
    &&& c is Op
    &&& c->Op_1 == Opcode::Eq
    &&& (*c->Op_0) is Variable
    &&& (*c->Op_0)->Variable_0@ == s1->Let_0.variable@
    &&& (*c->Op_2) is Number
    &&& (*c->Op_2)->Number_0 == 0
    &&& s2->While_0.body.stmts@.len() == 2
    &&& b0 is Assign
    &&& b0->Assign_0.variable@ == s0->Let_0.variable@
    &&& b0->Assign_0.expr is Number
    &&& b0->Assign_0.expr->Number_0 == c1
    &&& b1 is Assign
    &&& b1->Assign_0.variable@ == s1->Let_0.variable@
    &&& b1->Assign_0.expr is Number
    &&& b1->Assign_0.expr->Number_0 == 1
    &&& s3 is Return
    &&& s3->Return_0.expr is Variable
    &&& s3->Return_0.expr->Variable_0@ == s0->Let_0.variable@
}

/// Assignment visibility through a loop: a variable bound outside a
/// `while`, reassigned inside its body, retains the reassigned value after
/// the loop exits, for all arguments and any fuel that admits the one
/// iteration.
pub proof fn lemma_assign_visible_while(p: Program, a: i64, c0: i64, c1: i64, fuel: nat)
    requires
        p.functions@.len() == 1,
        is_assign_vis_while_fn(p.functions@[0], c0, c1),
        fuel >= 1,
    ensures
        spec_compile_program(p) is Ok,
        spec_run(spec_compile_program(p)->Ok_0, p.functions@[0].name@, seq![a], fuel) == Some(c1),
{
    let f = p.functions@[0];
    lemma_params_map_one(f.args@);
    let m0 = spec_params_map(f.args@);
    let av = f.args@[0]@;
    let xv = f.body.stmts@[0]->Let_0.variable@;
    let gv = f.body.stmts@[1]->Let_0.variable@;
    assert(m0.contains_key(av) && m0[av] == 0);
    assert(!m0.contains_key(xv) && !m0.contains_key(gv));
    let stmts = f.body.stmts@;
    let s0 = stmts[0];
    let s1 = stmts[1];
    let s2 = stmts[2];
    let s3 = stmts[3];

    // `let x = c0;` and `let go = 0;` take the fresh slots 1 and 2
    let m1 = m0.insert(xv, 1);
    let m2 = m1.insert(gv, 2);
    let op0 = SpecOp::Store(1, SpecValue::Const(c0));
    let op1 = SpecOp::Store(2, SpecValue::Const(0));
    assert(spec_compile_stmt(m0, 1, s0) == Ok::<_, SpecCompileError>((m1, 2nat, seq![op0])));
    assert(spec_compile_stmt(m1, 2, s1) == Ok::<_, SpecCompileError>((m2, 3nat, seq![op1])));

    // the loop: condition `go == 0`, body `x = c1; go = 1;`
    assert(m2.contains_key(gv) && m2[gv] == 2 && m2.contains_key(xv) && m2[xv] == 1);
    let c = s2->While_0.cond;
    let cv = SpecValue::Cmp(CmpKind::Eq, Box::new(SpecValue::Load(2)), Box::new(SpecValue::Const(0)));
    assert(spec_compile_expr(m2, *c->Op_0) == Ok::<_, SpecCompileError>(
        (SpecValue::Load(2), IrType::I64),
    ));
    assert(spec_compile_expr(m2, *c->Op_2) == Ok::<_, SpecCompileError>(
        (SpecValue::Const(0), IrType::I64),
    ));
    assert(spec_compile_expr(m2, c) == Ok::<_, SpecCompileError>((cv, IrType::I1)));
    let bstmts = s2->While_0.body.stmts@;
    let opw0 = SpecOp::Store(1, SpecValue::Const(c1));
    let opw1 = SpecOp::Store(2, SpecValue::Const(1));
    assert(spec_compile_stmt(m2, 3, bstmts[0]) == Ok::<_, SpecCompileError>((m2, 3nat, seq![opw0])));
    assert(spec_compile_stmt(m2, 3, bstmts[1]) == Ok::<_, SpecCompileError>((m2, 3nat, seq![opw1])));
    assert(bstmts.first() == bstmts[0]);
    assert(bstmts.drop_first().first() == bstmts[1]);
    assert(bstmts.drop_first().drop_first() =~= Seq::<Statement>::empty());
    reveal_with_fuel(spec_compile_stmts, 3);
    let wbody = seq![opw0, opw1];
    assert(seq![opw0] + (seq![opw1] + Seq::<SpecOp>::empty()) =~= wbody);
    assert(spec_compile_stmts(m2, 3, bstmts) == Ok::<_, SpecCompileError>((m2, 3nat, wbody)));
    let op2 = SpecOp::While(cv, wbody);
    assert(spec_compile_stmt(m2, 3, s2) == Ok::<_, SpecCompileError>((m2, 3nat, seq![op2])));

    // `return x;`
    let op3 = SpecOp::Return(SpecValue::Load(1));
    assert(spec_compile_stmt(m2, 3, s3) == Ok::<_, SpecCompileError>((m2, 3nat, seq![op3])));

    // the whole body
    assert(stmts.first() == s0);
    assert(stmts.drop_first().first() == s1);
    assert(stmts.drop_first().drop_first() =~= stmts.skip(2));
    assert(stmts.skip(2).first() == s2);
    assert(stmts.skip(2).drop_first() =~= stmts.skip(3));
    assert(stmts.skip(3).first() == s3);
    assert(stmts.skip(3).drop_first() =~= Seq::<Statement>::empty());
    reveal_with_fuel(spec_compile_stmts, 5);
    let body = seq![op0, op1, op2, op3];
    assert(seq![op0] + (seq![op1] + (seq![op2] + (seq![op3] + Seq::<SpecOp>::empty()))) =~= body);
    assert(spec_compile_stmts(m0, 1, stmts) == Ok::<_, SpecCompileError>((m2, 3nat, body)));
    let sf = SpecFunction { name: f.name@, params: 1, slots: 3, body: body };
    assert(spec_compile_function(f) == Ok::<_, SpecCompileError>(sf));
    lemma_single_function_module(p);
    let sm = SpecModule { functions: seq![sf] };
    lemma_run_single(sf, seq![a], fuel);

    // running it: one iteration flips the guard and writes c1 through the
    // outer slot, the second condition check exits, the return reads c1
    let st0 = spec_init_store(seq![a], 3);
    assert(st0.len() == 3 && st0[0] == Some(a) && st0[1] == None::<i64> && st0[2] == None::<i64>);
    let st1 = st0.update(1, Some(c0));
    let st2 = st1.update(2, Some(0));
    assert(spec_eval_value(sm, st0, SpecValue::Const(c0), fuel) == Some(RunValue::Int(c0)));
    assert(spec_exec_op(sm, st0, op0, fuel) == Some((st1, None::<i64>)));
    assert(spec_eval_value(sm, st1, SpecValue::Const(0), fuel) == Some(RunValue::Int(0)));
    assert(spec_exec_op(sm, st1, op1, fuel) == Some((st2, None::<i64>)));

    // first condition check: go == 0 holds
    assert(st2[2] == Some(0i64));
    assert(spec_eval_value(sm, st2, SpecValue::Load(2), fuel) == Some(RunValue::Int(0)));
    assert(spec_eval_value(sm, st2, SpecValue::Const(0), fuel) == Some(RunValue::Int(0)));
    assert(spec_eval_value(sm, st2, cv, fuel) == Some(RunValue::Bool(true)));

    // the body writes c1 into slot 1 and 1 into slot 2
    let st3 = st2.update(1, Some(c1));
    let st4 = st3.update(2, Some(1));
    assert(spec_eval_value(sm, st2, SpecValue::Const(c1), fuel) == Some(RunValue::Int(c1)));
    assert(spec_exec_op(sm, st2, opw0, fuel) == Some((st3, None::<i64>)));
    assert(spec_eval_value(sm, st3, SpecValue::Const(1), fuel) == Some(RunValue::Int(1)));
    assert(spec_exec_op(sm, st3, opw1, fuel) == Some((st4, None::<i64>)));
    assert(wbody.first() == opw0);
    assert(wbody.drop_first().first() == opw1);
    assert(wbody.drop_first().drop_first() =~= Seq::<SpecOp>::empty());
    assert(spec_exec_ops(sm, st4, Seq::<SpecOp>::empty(), fuel) == Some((st4, None::<i64>)));
    assert(spec_exec_ops(sm, st3, wbody.drop_first(), fuel) == Some((st4, None::<i64>)));
    assert(spec_exec_ops(sm, st2, wbody, fuel) == Some((st4, None::<i64>)));

    // second condition check: go == 0 no longer holds, the loop exits with
    // the body's writes kept
    let fuel2 = (fuel - 1) as nat;
    assert(st4[2] == Some(1i64));
    assert(spec_eval_value(sm, st4, SpecValue::Load(2), fuel2) == Some(RunValue::Int(1)));
    assert(spec_eval_value(sm, st4, SpecValue::Const(0), fuel2) == Some(RunValue::Int(0)));
    assert(spec_eval_value(sm, st4, cv, fuel2) == Some(RunValue::Bool(false)));
    assert(spec_exec_op(sm, st4, op2, fuel2) == Some((st4, None::<i64>)));
    assert(spec_exec_op(sm, st2, op2, fuel) == Some((st4, None::<i64>)));

    // the return reads the value assigned inside the loop
    assert(st4[1] == Some(c1));
    assert(spec_eval_value(sm, st4, SpecValue::Load(1), fuel) == Some(RunValue::Int(c1)));
    assert(spec_exec_op(sm, st4, op3, fuel) == Some((st4, Some(c1))));
    assert(body.first() == op0);
    assert(body.drop_first().first() == op1);
    assert(body.drop_first().drop_first() =~= body.skip(2));
    assert(body.skip(2).first() == op2);
    assert(body.skip(2).drop_first() =~= body.skip(3));
    assert(body.skip(3).first() == op3);
    assert(spec_exec_ops(sm, st4, body.skip(3), fuel) == Some((st4, Some(c1))));
    assert(spec_exec_ops(sm, st2, body.skip(2), fuel) == Some((st4, Some(c1))));
    assert(spec_exec_ops(sm, st1, body.drop_first(), fuel) == Some((st4, Some(c1))));
    assert(spec_exec_ops(sm, st0, body, fuel) == Some((st4, Some(c1))));
    assert(spec_call(sm, sf, seq![a], fuel) == Some(c1));
}

} // verus!
