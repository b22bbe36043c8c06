//! Target well-formedness of the intermediate representation, and the proof
//! that the code generator only ever emits well-formed modules.
//!
//! A module is well-formed when every storage slot an operation touches
//! lies below the owning function's slot count and every value is used at
//! its own type: operands of arithmetic, comparisons, calls, stores and
//! returns are 64-bit integers, and every `If`/`While` condition is a
//! boolean. This is exactly what the native backend's verifier demands of
//! the lowered module — a stray boolean-as-integer mistake would surface
//! there as a hard failure. [`lemma_compiled_module_wf`] shows that no such
//! mistake can leave the lowering: whatever program compiles successfully
//! compiles to a well-formed module, so backend verification cannot fail on
//! the code generator's output. [`verify_module`] is the executable check
//! of the same judgment.

use vstd::prelude::*;

use crate::ast::{Expr, Function, IfStmt, Program, Statement, WhileStmt};
use crate::codegen::expressions::{spec_compile_args, spec_compile_expr};
use crate::codegen::ifelse_stmt::{spec_compile_else, spec_compile_if};
use crate::codegen::while_stmt::spec_compile_while;
use crate::codegen::{
    spec_compile_function, spec_compile_functions, spec_compile_program, spec_compile_stmt,
    spec_compile_stmts, spec_params_map,
};
use crate::ir::{
    functions_view, lemma_functions_view_index, lemma_ops_view_index, lemma_values_view_index,
    op_view, ops_view, value_view, values_view, IrModule, IrOp, IrType, IrValue, SpecFunction,
    SpecModule, SpecOp, SpecValue,
};

verus! {

/// The type a value tree produces: comparisons yield booleans, everything
/// else yields 64-bit integers.
pub open spec fn value_type(v: SpecValue) -> IrType {
    match v {
        SpecValue::Cmp(_, _, _) => IrType::I1,
        _ => IrType::I64,
    }
}

/// A value tree is well-formed below a slot bound: loads stay below the
/// bound, and every operand is a 64-bit integer.
pub open spec fn value_wf(v: SpecValue, slots: nat) -> bool
    decreases v,
{
    match v {
        SpecValue::Const(_) => true,
        SpecValue::Load(s) => s < slots,
        SpecValue::Arith(_, l, r) => {
            &&& value_wf(*l, slots)
            &&& value_wf(*r, slots)
            &&& value_type(*l) == IrType::I64
            &&& value_type(*r) == IrType::I64
        },
        SpecValue::Cmp(_, l, r) => {
            &&& value_wf(*l, slots)
            &&& value_wf(*r, slots)
            &&& value_type(*l) == IrType::I64
            &&& value_type(*r) == IrType::I64
        },
        SpecValue::Call(_, args) => values_wf(args, slots),
    }
}

/// Every call argument is well-formed and a 64-bit integer.
pub open spec fn values_wf(vs: Seq<SpecValue>, slots: nat) -> bool
    decreases vs,
{
    if vs.len() == 0 {
        true
    } else {
        &&& value_wf(vs.first(), slots)
        &&& value_type(vs.first()) == IrType::I64
        &&& values_wf(vs.drop_first(), slots)
    }
}

/// An operation is well-formed below a slot bound: stored and returned
/// values are 64-bit integers, conditions are booleans, nested regions are
/// well-formed.
pub open spec fn op_wf(op: SpecOp, slots: nat) -> bool
    decreases op,
{
    match op {
        SpecOp::Store(s, v) => {
            &&& s < slots
            &&& value_wf(v, slots)
            &&& value_type(v) == IrType::I64
        },
        SpecOp::Return(v) => {
            &&& value_wf(v, slots)
            &&& value_type(v) == IrType::I64
        },
        SpecOp::If(c, thn, els) => {
            &&& value_wf(c, slots)
            &&& value_type(c) == IrType::I1
            &&& ops_wf(thn, slots)
            &&& ops_wf(els, slots)
        },
        SpecOp::While(c, body) => {
            &&& value_wf(c, slots)
            &&& value_type(c) == IrType::I1
            &&& ops_wf(body, slots)
        },
    }
}

/// Every operation of a region is well-formed.
pub open spec fn ops_wf(ops: Seq<SpecOp>, slots: nat) -> bool
    decreases ops,
{
    if ops.len() == 0 {
        true
    } else {
        op_wf(ops.first(), slots) && ops_wf(ops.drop_first(), slots)
    }
}

/// A callable unit is well-formed: the spilled parameters fit in the slot
/// row and the body respects it.
pub open spec fn function_wf(f: SpecFunction) -> bool {
    &&& f.params <= f.slots
    &&& ops_wf(f.body, f.slots)
}

/// Every function of the module is well-formed.
pub open spec fn module_wf(m: SpecModule) -> bool {
    forall|i: int| 0 <= i < m.functions.len() ==> function_wf(#[trigger] m.functions[i])
}

/// Well-formedness below a bound still holds below any larger bound.
pub proof fn lemma_value_wf_weaken(v: SpecValue, n1: nat, n2: nat)
    requires
        value_wf(v, n1),
        n1 <= n2,
    ensures
        value_wf(v, n2),
    decreases v, 0nat,
{
    match v {
        SpecValue::Arith(_, l, r) => {
            lemma_value_wf_weaken(*l, n1, n2);
            lemma_value_wf_weaken(*r, n1, n2);
        },
        SpecValue::Cmp(_, l, r) => {
            lemma_value_wf_weaken(*l, n1, n2);
            lemma_value_wf_weaken(*r, n1, n2);
        },
        SpecValue::Call(_, args) => {
            lemma_values_wf_weaken(args, n1, n2);
        },
        _ => {},
    }
}

/// As [`lemma_value_wf_weaken`], for argument rows.
pub proof fn lemma_values_wf_weaken(vs: Seq<SpecValue>, n1: nat, n2: nat)
    requires
        values_wf(vs, n1),
        n1 <= n2,
    ensures
        values_wf(vs, n2),
    decreases vs, 1nat,
{
    if vs.len() > 0 {
        lemma_value_wf_weaken(vs.first(), n1, n2);
        lemma_values_wf_weaken(vs.drop_first(), n1, n2);
    }
}

/// As [`lemma_value_wf_weaken`], for operations.
pub proof fn lemma_op_wf_weaken(op: SpecOp, n1: nat, n2: nat)
    requires
        op_wf(op, n1),
        n1 <= n2,
    ensures
        op_wf(op, n2),
    decreases op, 0nat,
{
    match op {
        SpecOp::Store(_, v) => {
            lemma_value_wf_weaken(v, n1, n2);
        },
        SpecOp::Return(v) => {
            lemma_value_wf_weaken(v, n1, n2);
        },
        SpecOp::If(c, thn, els) => {
            lemma_value_wf_weaken(c, n1, n2);
            lemma_ops_wf_weaken(thn, n1, n2);
            lemma_ops_wf_weaken(els, n1, n2);
        },
        SpecOp::While(c, body) => {
            lemma_value_wf_weaken(c, n1, n2);
            lemma_ops_wf_weaken(body, n1, n2);
        },
    }
}

/// As [`lemma_value_wf_weaken`], for regions.
pub proof fn lemma_ops_wf_weaken(ops: Seq<SpecOp>, n1: nat, n2: nat)
    requires
        ops_wf(ops, n1),
        n1 <= n2,
    ensures
        ops_wf(ops, n2),
    decreases ops, 1nat,
{
    if ops.len() > 0 {
        lemma_op_wf_weaken(ops.first(), n1, n2);
        lemma_ops_wf_weaken(ops.drop_first(), n1, n2);
    }
}

/// Two well-formed regions concatenate to a well-formed region.
pub proof fn lemma_ops_wf_concat(a: Seq<SpecOp>, b: Seq<SpecOp>, slots: nat)
    requires
        ops_wf(a, slots),
        ops_wf(b, slots),
    ensures
        ops_wf(a + b, slots),
    decreases a,
{
    if a.len() == 0 {
        assert(a + b =~= b);
    } else {
        lemma_ops_wf_concat(a.drop_first(), b, slots);
        assert((a + b).first() == a.first());
        assert((a + b).drop_first() =~= a.drop_first() + b);
    }
}

/// Every slot a scope maps to lies below the bound.
pub open spec fn map_bounded(m: Map<Seq<char>, nat>, bound: nat) -> bool {
    forall|k: Seq<char>| m.contains_key(k) ==> #[trigger] m[k] < bound
}

/// A successfully lowered expression is well-formed below any bound the
/// scope respects, and carries the type the lowering reported.
pub proof fn lemma_expr_wf(m: Map<Seq<char>, nat>, e: Expr, bound: nat)
    requires
        map_bounded(m, bound),
        spec_compile_expr(m, e) is Ok,
    ensures
        value_wf(spec_compile_expr(m, e)->Ok_0.0, bound),
        value_type(spec_compile_expr(m, e)->Ok_0.0) == spec_compile_expr(m, e)->Ok_0.1,
    decreases e, 0nat,
{
    match e {
        Expr::Op(l, _, r) => {
            lemma_expr_wf(m, *l, bound);
            lemma_expr_wf(m, *r, bound);
        },
        Expr::Call { target: _, args } => {
            lemma_args_wf(m, args@, bound);
        },
        _ => {},
    }
}

/// As [`lemma_expr_wf`], for argument rows.
pub proof fn lemma_args_wf(m: Map<Seq<char>, nat>, args: Seq<Expr>, bound: nat)
    requires
        map_bounded(m, bound),
        spec_compile_args(m, args) is Ok,
    ensures
        values_wf(spec_compile_args(m, args)->Ok_0, bound),
    decreases args, 1nat,
{
    if args.len() > 0 {
        lemma_expr_wf(m, args.first(), bound);
        lemma_args_wf(m, args.drop_first(), bound);
        let v = spec_compile_expr(m, args.first())->Ok_0.0;
        let rest = spec_compile_args(m, args.drop_first())->Ok_0;
        assert((seq![v] + rest).first() == v);
        assert((seq![v] + rest).drop_first() =~= rest);
    }
}

/// A successfully lowered statement advances the slot counter, keeps the
/// scope below it, and emits operations well-formed below it.
pub proof fn lemma_stmt_wf(m: Map<Seq<char>, nat>, next: nat, s: Statement)
    requires
        map_bounded(m, next),
        spec_compile_stmt(m, next, s) is Ok,
    ensures
        next <= spec_compile_stmt(m, next, s)->Ok_0.1,
        map_bounded(spec_compile_stmt(m, next, s)->Ok_0.0, spec_compile_stmt(m, next, s)->Ok_0.1),
        ops_wf(spec_compile_stmt(m, next, s)->Ok_0.2, spec_compile_stmt(m, next, s)->Ok_0.1),
    decreases s, 1nat,
{
    match s {
        Statement::Let(l) => {
            lemma_expr_wf(m, l.expr, next);
            let v = spec_compile_expr(m, l.expr)->Ok_0.0;
            lemma_value_wf_weaken(v, next, next + 1);
            assert(op_wf(SpecOp::Store(next, v), next + 1));
                assert(ops_wf(Seq::<SpecOp>::empty(), next + 1));
                assert(seq![SpecOp::Store(next, v)].first() == SpecOp::Store(next, v));
                assert(seq![SpecOp::Store(next, v)].drop_first() =~= Seq::<SpecOp>::empty());
                assert(ops_wf(seq![SpecOp::Store(next, v)], next + 1));
        },
        Statement::Assign(a) => {
            lemma_expr_wf(m, a.expr, next);
            let v = spec_compile_expr(m, a.expr)->Ok_0.0;
            let op = SpecOp::Store(m[a.variable@], v);
            assert(op_wf(op, next));
                assert(ops_wf(Seq::<SpecOp>::empty(), next));
                assert(seq![op].first() == op);
                assert(seq![op].drop_first() =~= Seq::<SpecOp>::empty());
                assert(ops_wf(seq![op], next));
        },
        Statement::Return(r) => {
            lemma_expr_wf(m, r.expr, next);
            let v = spec_compile_expr(m, r.expr)->Ok_0.0;
            assert(op_wf(SpecOp::Return(v), next));
                assert(ops_wf(Seq::<SpecOp>::empty(), next));
                assert(seq![SpecOp::Return(v)].first() == SpecOp::Return(v));
                assert(seq![SpecOp::Return(v)].drop_first() =~= Seq::<SpecOp>::empty());
                assert(ops_wf(seq![SpecOp::Return(v)], next));
        },
        Statement::If(i) => {
            lemma_if_wf(m, next, i);
        },
        Statement::While(w) => {
            lemma_while_wf(m, next, w);
        },
    }
}

/// As [`lemma_stmt_wf`], for the structured conditional.
pub proof fn lemma_if_wf(m: Map<Seq<char>, nat>, next: nat, s: IfStmt)
    requires
        map_bounded(m, next),
        spec_compile_if(m, next, s) is Ok,
    ensures
        next <= spec_compile_if(m, next, s)->Ok_0.1,
        map_bounded(spec_compile_if(m, next, s)->Ok_0.0, spec_compile_if(m, next, s)->Ok_0.1),
        ops_wf(spec_compile_if(m, next, s)->Ok_0.2, spec_compile_if(m, next, s)->Ok_0.1),
    decreases s, 1nat,
{
    lemma_expr_wf(m, s.cond, next);
    let c = spec_compile_expr(m, s.cond)->Ok_0.0;
    lemma_stmts_wf(m, next, s.then_block.stmts@);
    let n1 = spec_compile_stmts(m, next, s.then_block.stmts@)->Ok_0.1;
    let thn = spec_compile_stmts(m, next, s.then_block.stmts@)->Ok_0.2;
    let n2 = spec_compile_else(m, n1, s.else_block)->Ok_0.0;
    let els = spec_compile_else(m, n1, s.else_block)->Ok_0.1;
    match s.else_block {
        Option::Some(b) => {
            lemma_stmts_wf(m, n1, b.stmts@);
        },
        Option::None => {},
    }
    lemma_value_wf_weaken(c, next, n2);
    lemma_ops_wf_weaken(thn, n1, n2);
    let op = SpecOp::If(c, thn, els);
    assert(op_wf(op, n2));
        assert(ops_wf(Seq::<SpecOp>::empty(), n2));
        assert(seq![op].first() == op);
        assert(seq![op].drop_first() =~= Seq::<SpecOp>::empty());
        assert(ops_wf(seq![op], n2));
}

/// As [`lemma_stmt_wf`], for the structured loop.
pub proof fn lemma_while_wf(m: Map<Seq<char>, nat>, next: nat, s: WhileStmt)
    requires
        map_bounded(m, next),
        spec_compile_while(m, next, s) is Ok,
    ensures
        next <= spec_compile_while(m, next, s)->Ok_0.1,
        map_bounded(spec_compile_while(m, next, s)->Ok_0.0, spec_compile_while(m, next, s)->Ok_0.1),
        ops_wf(spec_compile_while(m, next, s)->Ok_0.2, spec_compile_while(m, next, s)->Ok_0.1),
    decreases s, 1nat,
{
    lemma_expr_wf(m, s.cond, next);
    let c = spec_compile_expr(m, s.cond)->Ok_0.0;
    lemma_stmts_wf(m, next, s.body.stmts@);
    let n1 = spec_compile_stmts(m, next, s.body.stmts@)->Ok_0.1;
    let body = spec_compile_stmts(m, next, s.body.stmts@)->Ok_0.2;
    lemma_value_wf_weaken(c, next, n1);
    let op = SpecOp::While(c, body);
    assert(op_wf(op, n1));
        assert(ops_wf(Seq::<SpecOp>::empty(), n1));
        assert(seq![op].first() == op);
        assert(seq![op].drop_first() =~= Seq::<SpecOp>::empty());
        assert(ops_wf(seq![op], n1));
}

/// As [`lemma_stmt_wf`], for a whole row of statements.
pub proof fn lemma_stmts_wf(m: Map<Seq<char>, nat>, next: nat, ss: Seq<Statement>)
    requires
        map_bounded(m, next),
        spec_compile_stmts(m, next, ss) is Ok,
    ensures
        next <= spec_compile_stmts(m, next, ss)->Ok_0.1,
        map_bounded(spec_compile_stmts(m, next, ss)->Ok_0.0, spec_compile_stmts(m, next, ss)->Ok_0.1),
        ops_wf(spec_compile_stmts(m, next, ss)->Ok_0.2, spec_compile_stmts(m, next, ss)->Ok_0.1),
    decreases ss, 2nat,
{
    if ss.len() > 0 {
        lemma_stmt_wf(m, next, ss.first());
        let m1 = spec_compile_stmt(m, next, ss.first())->Ok_0.0;
        let n1 = spec_compile_stmt(m, next, ss.first())->Ok_0.1;
        let ops1 = spec_compile_stmt(m, next, ss.first())->Ok_0.2;
        lemma_stmts_wf(m1, n1, ss.drop_first());
        let n2 = spec_compile_stmts(m1, n1, ss.drop_first())->Ok_0.1;
        let ops2 = spec_compile_stmts(m1, n1, ss.drop_first())->Ok_0.2;
        lemma_ops_wf_weaken(ops1, n1, n2);
        lemma_ops_wf_concat(ops1, ops2, n2);
    }
}

/// The starting scope of a function maps every parameter below the
/// parameter count.
pub proof fn lemma_params_map_bounded(args: Seq<String>)
    ensures
        map_bounded(spec_params_map(args), args.len() as nat),
    decreases args,
{
    if args.len() > 0 {
        lemma_params_map_bounded(args.drop_last());
        assert forall|k: Seq<char>| spec_params_map(args).contains_key(k) implies #[trigger] spec_params_map(
            args,
        )[k] < args.len() as nat by {
            if k != args.last()@ {
                assert(spec_params_map(args.drop_last()).contains_key(k));
            }
        }
    }
}

/// A successfully lowered function is well-formed.
pub proof fn lemma_function_compile_wf(f: Function)
    requires
        spec_compile_function(f) is Ok,
    ensures
        function_wf(spec_compile_function(f)->Ok_0),
{
    lemma_params_map_bounded(f.args@);
    lemma_stmts_wf(spec_params_map(f.args@), f.args@.len() as nat, f.body.stmts@);
}

/// The headline theorem of the pipeline's verification step: whatever
/// program the code generator accepts, the module it hands on is
/// well-formed — the backend's verifier cannot fail on it, and in
/// particular no boolean ever reaches an integer position.
pub proof fn lemma_compiled_module_wf(p: Program)
    requires
        spec_compile_program(p) is Ok,
    ensures
        module_wf(spec_compile_program(p)->Ok_0),
{
    lemma_functions_compile_wf(p.functions@);
}

/// The type a value tree produces, read off its head.
pub fn value_type_of(v: &IrValue) -> (t: IrType)
    ensures
        t == value_type(value_view(*v)),
{
    match v {
        IrValue::Cmp(_, _, _) => IrType::I1,
        _ => IrType::I64,
    }
}

/// Checks one value tree against the slot bound and the type discipline.
pub fn check_value(v: &IrValue, slots: usize) -> (r: bool)
    ensures
        r == value_wf(value_view(*v), slots as nat),
    decreases *v, 0nat,
{
    match v {
        IrValue::Const(_) => true,
        IrValue::Load(s) => *s < slots,
        IrValue::Arith(_, l, r) => check_value(l, slots) && check_value(r, slots) && value_type_of(
            l,
        ) == IrType::I64 && value_type_of(r) == IrType::I64,
        IrValue::Cmp(_, l, r) => check_value(l, slots) && check_value(r, slots) && value_type_of(l)
            == IrType::I64 && value_type_of(r) == IrType::I64,
        IrValue::Call(_, args) => check_values(args, slots),
    }
}

/// Checks a row of call arguments.
pub fn check_values(vs: &Vec<IrValue>, slots: usize) -> (r: bool)
    ensures
        r == values_wf(values_view(vs@), slots as nat),
    decreases *vs, 1nat,
{
    let ghost all = values_view(vs@);
    proof {
        lemma_values_view_index(vs@);
        assert(all.skip(0) =~= all);
    }
    let n = vs.len();
    for i in 0..n
        invariant
            n == vs.len(),
            all == values_view(vs@),
            all.len() == n,
            forall|j: int| 0 <= j < n ==> all[j] == value_view(vs@[j]),
            values_wf(all, slots as nat) == values_wf(all.skip(i as int), slots as nat),
    {
        proof {
            assert(all.skip(i as int).first() == all[i as int]);
            assert(all.skip(i as int).drop_first() =~= all.skip(i + 1));
            assert(decreases_to!(*vs => vs@));
            assert(decreases_to!(vs@ => vs@[i as int]));
        }
        if !(check_value(&vs[i], slots) && value_type_of(&vs[i]) == IrType::I64) {
            return false;
        }
    }
    proof {
        assert(all.skip(n as int) =~= Seq::<SpecValue>::empty());
    }
    true
}

/// Checks one operation, recursing into its regions.
pub fn check_op(op: &IrOp, slots: usize) -> (r: bool)
    ensures
        r == op_wf(op_view(*op), slots as nat),
    decreases *op, 0nat,
{
    match op {
        IrOp::Store(s, v) => *s < slots && check_value(v, slots) && value_type_of(v)
            == IrType::I64,
        IrOp::Return(v) => check_value(v, slots) && value_type_of(v) == IrType::I64,
        IrOp::If(c, thn, els) => check_value(c, slots) && value_type_of(c) == IrType::I1
            && check_ops(thn, slots) && check_ops(els, slots),
        IrOp::While(c, body) => check_value(c, slots) && value_type_of(c) == IrType::I1
            && check_ops(body, slots),
    }
}

/// Checks a whole region.
pub fn check_ops(ops: &Vec<IrOp>, slots: usize) -> (r: bool)
    ensures
        r == ops_wf(ops_view(ops@), slots as nat),
    decreases *ops, 1nat,
{
    let ghost all = ops_view(ops@);
    proof {
        lemma_ops_view_index(ops@);
        assert(all.skip(0) =~= all);
    }
    let n = ops.len();
    for i in 0..n
        invariant
            n == ops.len(),
            all == ops_view(ops@),
            all.len() == n,
            forall|j: int| 0 <= j < n ==> all[j] == op_view(ops@[j]),
            ops_wf(all, slots as nat) == ops_wf(all.skip(i as int), slots as nat),
    {
        proof {
            assert(all.skip(i as int).first() == all[i as int]);
            assert(all.skip(i as int).drop_first() =~= all.skip(i + 1));
            assert(decreases_to!(*ops => ops@));
            assert(decreases_to!(ops@ => ops@[i as int]));
        }
        if !check_op(&ops[i], slots) {
            return false;
        }
    }
    proof {
        assert(all.skip(n as int) =~= Seq::<SpecOp>::empty());
    }
    true
}

/// The pipeline's verification step: checks that the whole module satisfies
/// target well-formedness — every touched slot in range, every value used
/// at its own type. By [`lemma_compiled_module_wf`] this holds of whatever
/// the code generator produces; a `false` here means a module was built or
/// altered by hand.
pub fn verify_module(m: &IrModule) -> (r: bool)
    ensures
        r == module_wf(m@),
{
    let ghost full = functions_view(m.functions@);
    proof {
        lemma_functions_view_index(m.functions@);
    }
    let n = m.functions.len();
    for i in 0..n
        invariant
            n == m.functions.len(),
            full == functions_view(m.functions@),
            full.len() == n,
            forall|j: int| 0 <= j < n ==> full[j] == m.functions@[j]@,
            forall|j: int| 0 <= j < i ==> function_wf(#[trigger] full[j]),
    {
        let f = &m.functions[i];
        if !(f.params <= f.slots && check_ops(&f.body, f.slots)) {
            proof {
                assert(m@.functions[i as int] == full[i as int]);
                assert(!function_wf(m@.functions[i as int]));
            }
            return false;
        }
    }
    true
}

/// As [`lemma_compiled_module_wf`], for the function fold.
pub proof fn lemma_functions_compile_wf(fs: Seq<Function>)
    requires
        spec_compile_functions(fs) is Ok,
    ensures
        forall|i: int|
            0 <= i < spec_compile_functions(fs)->Ok_0.len() ==> function_wf(
                #[trigger] spec_compile_functions(fs)->Ok_0[i],
            ),
    decreases fs,
{
    if fs.len() > 0 {
        lemma_function_compile_wf(fs.first());
        lemma_functions_compile_wf(fs.drop_first());
        let sf = spec_compile_function(fs.first())->Ok_0;
        let rest = spec_compile_functions(fs.drop_first())->Ok_0;
        assert forall|i: int| 0 <= i < (seq![sf] + rest).len() implies function_wf(
            #[trigger] (seq![sf] + rest)[i],
        ) by {
            if i > 0 {
                assert((seq![sf] + rest)[i] == rest[i - 1]);
            }
        }
    }
}

} // verus!
