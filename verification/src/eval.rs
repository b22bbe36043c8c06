//! The reference evaluator: the meaning of the intermediate representation,
//! and the in-process execution path.
//!
//! The spec functions here define what a compiled module computes: a
//! function call spills its arguments into the first storage slots and runs
//! its top-level region; a region runs first to last, threading the store,
//! until a return ends the whole function (operations after it are dead);
//! `+`, `-` and `*` wrap; `/` truncates and faults on division by zero or on
//! `i64::MIN / -1`; an `If` runs one region under the same store, so writes
//! inside it stay visible; a `While` re-evaluates its condition before every
//! iteration. Every fault — an unset or out-of-range slot, a type confusion,
//! an unresolvable call target, a wrong arity, a division trap, a body that
//! falls off the end without returning, or exhausted fuel — is `None`.
//!
//! `fuel` bounds only the call depth and the number of loop iterations, so a
//! terminating program has its result for every large enough fuel; fuel is
//! what lets evaluation of a Turing-complete language be a total function.
//!
//! [`run_function`] is the executable twin, proved to return exactly what
//! the spec evaluator says; it is how a verified module is invoked directly,
//! without object emission and linking.

use vstd::prelude::*;

use crate::ir::{
    functions_view, lemma_functions_view_index, lemma_ops_view_index, lemma_values_view_index,
    op_view, ops_view, value_view, values_view, ArithKind, CmpKind, IrFunction, IrModule, IrOp,
    IrValue, SpecFunction, SpecModule, SpecOp, SpecValue,
};

verus! {

/// A run-time value: a 64-bit integer or a boolean. A boolean is only ever
/// produced by a comparison and only ever consumed by an `If` or `While`
/// condition.
#[derive(Debug, Clone, Copy, PartialEq, Eq, Structural)]
pub enum RunValue {
    Int(i64),
    Bool(bool),
}

/// What one arithmetic operation yields: wrapping two's-complement results
/// for `+`, `-`, `*`; truncating division for `/`, whose zero and overflow
/// cases fault.
pub open spec fn spec_arith(k: ArithKind, a: i64, b: i64) -> Option<i64> {
    match k {
        ArithKind::Add => Some(a.wrapping_add(b)),
        ArithKind::Sub => Some(a.wrapping_sub(b)),
        ArithKind::Mul => Some(a.wrapping_mul(b)),
        ArithKind::Div => a.checked_div(b),
    }
}

/// What one comparison yields.
pub open spec fn spec_cmp(k: CmpKind, a: i64, b: i64) -> bool {
    match k {
        CmpKind::Eq => a == b,
        CmpKind::Ne => a != b,
    }
}

/// The first function of the module carrying `name`, if any; lookup is by
/// name, so declaration order matters only for duplicate names.
pub open spec fn spec_lookup(fs: Seq<SpecFunction>, name: Seq<char>) -> Option<SpecFunction>
    decreases fs,
{
    if fs.len() == 0 {
        None
    } else if fs.first().name == name {
        Some(fs.first())
    } else {
        spec_lookup(fs.drop_first(), name)
    }
}

/// The store a function activation starts from: argument `i` spilled into
/// slot `i`, every other slot unset.
pub open spec fn spec_init_store(args: Seq<i64>, slots: nat) -> Seq<Option<i64>> {
    Seq::new(slots, |i: int| if i < args.len() { Some(args[i]) } else { None })
}

/// What a value tree evaluates to under a store, or `None` on a fault.
pub open spec fn spec_eval_value(
    m: SpecModule,
    store: Seq<Option<i64>>,
    v: SpecValue,
    fuel: nat,
) -> Option<RunValue>
    decreases fuel, 0nat, v,
{
    match v {
        SpecValue::Const(n) => Some(RunValue::Int(n)),
        SpecValue::Load(s) => if s < store.len() && store[s as int] is Some {
            Some(RunValue::Int(store[s as int]->0))
        } else {
            None
        },
        SpecValue::Arith(k, l, r) => match (
            spec_eval_value(m, store, *l, fuel),
            spec_eval_value(m, store, *r, fuel),
        ) {
            (Some(RunValue::Int(a)), Some(RunValue::Int(b))) => match spec_arith(k, a, b) {
                Some(c) => Some(RunValue::Int(c)),
                None => None,
            },
            _ => None,
        },
        SpecValue::Cmp(k, l, r) => match (
            spec_eval_value(m, store, *l, fuel),
            spec_eval_value(m, store, *r, fuel),
        ) {
            (Some(RunValue::Int(a)), Some(RunValue::Int(b))) => Some(
                RunValue::Bool(spec_cmp(k, a, b)),
            ),
            _ => None,
        },
        SpecValue::Call(target, args) => match spec_eval_values(m, store, args, fuel) {
            Some(vals) => if fuel == 0 {
                None
            } else {
                match spec_lookup(m.functions, target) {
                    Some(f) => if vals.len() == f.params {
                        match spec_call(m, f, vals, (fuel - 1) as nat) {
                            Some(rv) => Some(RunValue::Int(rv)),
                            None => None,
                        }
                    } else {
                        None
                    },
                    None => None,
                }
            },
            None => None,
        },
    }
}

/// Evaluates a row of argument trees, left to right; each must yield an
/// integer.
pub open spec fn spec_eval_values(
    m: SpecModule,
    store: Seq<Option<i64>>,
    vs: Seq<SpecValue>,
    fuel: nat,
) -> Option<Seq<i64>>
    decreases fuel, 0nat, vs,
{
    if vs.len() == 0 {
        Some(Seq::empty())
    } else {
        match spec_eval_value(m, store, vs.first(), fuel) {
            Some(RunValue::Int(a)) => match spec_eval_values(m, store, vs.drop_first(), fuel) {
                Some(rest) => Some(seq![a] + rest),
                None => None,
            },
            _ => None,
        }
    }
}

/// What one operation does to the store; the second component is `Some`
/// exactly when the operation returned from the enclosing function.
pub open spec fn spec_exec_op(
    m: SpecModule,
    store: Seq<Option<i64>>,
    op: SpecOp,
    fuel: nat,
) -> Option<(Seq<Option<i64>>, Option<i64>)>
    decreases fuel, 1nat, op,
{
    match op {
        SpecOp::Store(s, v) => match spec_eval_value(m, store, v, fuel) {
            Some(RunValue::Int(a)) => if s < store.len() {
                Some((store.update(s as int, Some(a)), None))
            } else {
                None
            },
            _ => None,
        },
        SpecOp::Return(v) => match spec_eval_value(m, store, v, fuel) {
            Some(RunValue::Int(a)) => Some((store, Some(a))),
            _ => None,
        },
        SpecOp::If(c, thn, els) => match spec_eval_value(m, store, c, fuel) {
            Some(RunValue::Bool(b)) => if b {
                spec_exec_ops(m, store, thn, fuel)
            } else {
                spec_exec_ops(m, store, els, fuel)
            },
            _ => None,
        },
        SpecOp::While(c, body) => match spec_eval_value(m, store, c, fuel) {
            Some(RunValue::Bool(b)) => if !b {
                Some((store, None))
            } else {
                match spec_exec_ops(m, store, body, fuel) {
                    Some((st2, Some(rv))) => Some((st2, Some(rv))),
                    Some((st2, None)) => if fuel == 0 {
                        None
                    } else {
                        spec_exec_op(m, st2, SpecOp::While(c, body), (fuel - 1) as nat)
                    },
                    None => None,
                }
            },
            _ => None,
        },
    }
}

/// Runs a region first to last, threading the store; a return ends the run
/// and the remaining operations are dead.
pub open spec fn spec_exec_ops(
    m: SpecModule,
    store: Seq<Option<i64>>,
    ops: Seq<SpecOp>,
    fuel: nat,
) -> Option<(Seq<Option<i64>>, Option<i64>)>
    decreases fuel, 1nat, ops,
{
    if ops.len() == 0 {
        Some((store, None))
    } else {
        match spec_exec_op(m, store, ops.first(), fuel) {
            Some((st2, Some(rv))) => Some((st2, Some(rv))),
            Some((st2, None)) => spec_exec_ops(m, st2, ops.drop_first(), fuel),
            None => None,
        }
    }
}

/// What one call of a function on argument values yields: the body run
/// under a fresh store; falling off the end without a return is a fault.
pub open spec fn spec_call(m: SpecModule, f: SpecFunction, args: Seq<i64>, fuel: nat) -> Option<
    i64,
>
    decreases fuel, 2nat, f,
{
    match spec_exec_ops(m, spec_init_store(args, f.slots), f.body, fuel) {
        Some(t) => match t.1 {
            Some(v) => Some(v),
            None => None,
        },
        None => None,
    }
}

/// What invoking `name` on `args` against the module yields: resolve the
/// function by name, check the arity, run it.
pub open spec fn spec_run(m: SpecModule, name: Seq<char>, args: Seq<i64>, fuel: nat) -> Option<
    i64,
>
    decreases fuel, 3nat, m,
{
    match spec_lookup(m.functions, name) {
        Some(f) => if args.len() == f.params {
            spec_call(m, f, args, fuel)
        } else {
            None
        },
        None => None,
    }
}

/// Finds the first function named `name` in the module.
fn lookup_function<'a>(module: &'a IrModule, name: &String) -> (r: Option<&'a IrFunction>)
    ensures
        match r {
            Some(f) => spec_lookup(module@.functions, name@) == Some(f@),
            None => spec_lookup(module@.functions, name@) is None,
        },
{
    let ghost full = functions_view(module.functions@);
    proof {
        lemma_functions_view_index(module.functions@);
        assert(full.skip(0) =~= full);
    }
    let n = module.functions.len();
    for i in 0..n
        invariant
            n == module.functions.len(),
            full == functions_view(module.functions@),
            full.len() == n,
            forall|j: int| 0 <= j < n ==> full[j] == module.functions@[j]@,
            spec_lookup(full, name@) == spec_lookup(full.skip(i as int), name@),
    {
        proof {
            assert(full.skip(i as int).first() == full[i as int]);
            assert(full.skip(i as int).drop_first() =~= full.skip(i + 1));
        }
        if module.functions[i].name == *name {
            return Some(&module.functions[i]);
        }
    }
    proof {
        assert(full.skip(n as int) =~= Seq::<SpecFunction>::empty());
    }
    None
}

/// Evaluates one value tree against the current store.
fn eval_value(module: &IrModule, store: &Vec<Option<i64>>, v: &IrValue, fuel: u64) -> (r: Option<
    RunValue,
>)
    ensures
        r == spec_eval_value(module@, store@, value_view(*v), fuel as nat),
    decreases fuel, 0nat, *v,
{
    match v {
        IrValue::Const(n) => Some(RunValue::Int(*n)),
        IrValue::Load(s) => {
            if *s < store.len() {
                match store[*s] {
                    Some(a) => Some(RunValue::Int(a)),
                    None => None,
                }
            } else {
                None
            }
        },
        IrValue::Arith(k, l, r) => {
            let a = match eval_value(module, store, l, fuel) {
                Some(RunValue::Int(a)) => a,
                _ => {
                    return None;
                },
            };
            let b = match eval_value(module, store, r, fuel) {
                Some(RunValue::Int(b)) => b,
                _ => {
                    return None;
                },
            };
            match k {
                ArithKind::Add => Some(RunValue::Int(a.wrapping_add(b))),
                ArithKind::Sub => Some(RunValue::Int(a.wrapping_sub(b))),
                ArithKind::Mul => Some(RunValue::Int(a.wrapping_mul(b))),
                ArithKind::Div => match a.checked_div(b) {
                    Some(c) => Some(RunValue::Int(c)),
                    None => None,
                },
            }
        },
        IrValue::Cmp(k, l, r) => {
            let a = match eval_value(module, store, l, fuel) {
                Some(RunValue::Int(a)) => a,
                _ => {
                    return None;
                },
            };
            let b = match eval_value(module, store, r, fuel) {
                Some(RunValue::Int(b)) => b,
                _ => {
                    return None;
                },
            };
            match k {
                CmpKind::Eq => Some(RunValue::Bool(a == b)),
                CmpKind::Ne => Some(RunValue::Bool(a != b)),
            }
        },
        IrValue::Call(target, args) => {
            let ghost all = values_view(args@);
            let mut vals: Vec<i64> = Vec::new();
            let n = args.len();
            proof {
                lemma_values_view_index(args@);
                assert(all.skip(0) =~= all);
                if spec_eval_values(module@, store@, all, fuel as nat) is Some {
                    let rest0 = spec_eval_values(module@, store@, all, fuel as nat)->Some_0;
                    assert(vals@ + rest0 =~= rest0);
                }
            }
            for i in 0..n
                invariant
                    n == args.len(),
                    all == values_view(args@),
                    all.len() == n,
                    forall|j: int| 0 <= j < n ==> all[j] == value_view(args@[j]),
                    *v is Call,
                    v->Call_1 == *args,
                    spec_eval_values(module@, store@, all, fuel as nat) == (match spec_eval_values(
                        module@,
                        store@,
                        all.skip(i as int),
                        fuel as nat,
                    ) {
                        Some(rest) => Some(vals@ + rest),
                        None => None::<Seq<i64>>,
                    }),
            {
                proof {
                    assert(all.skip(i as int).first() == all[i as int]);
                    assert(all.skip(i as int).drop_first() =~= all.skip(i + 1));
                    assert(decreases_to!(*v => v->Call_1));
                    assert(decreases_to!(v->Call_1 => v->Call_1@));
                    assert(decreases_to!(v->Call_1@ => v->Call_1@[i as int]));
                }
                match eval_value(module, store, &args[i], fuel) {
                    Some(RunValue::Int(a)) => {
                        let ghost before = vals@;
                        vals.push(a);
                        proof {
                            if spec_eval_values(module@, store@, all.skip(i + 1), fuel as nat)
                                is Some {
                                let rest = spec_eval_values(
                                    module@,
                                    store@,
                                    all.skip(i + 1),
                                    fuel as nat,
                                )->Some_0;
                                assert(before.push(a) + rest =~= before + (seq![a] + rest));
                            }
                        }
                    },
                    _ => {
                        return None;
                    },
                }
            }
            proof {
                assert(all.skip(n as int) =~= Seq::<SpecValue>::empty());
                if spec_eval_values(module@, store@, all, fuel as nat) is Some {
                    assert(vals@ + Seq::<i64>::empty() =~= vals@);
                }
            }
            if fuel == 0 {
                return None;
            }
            match lookup_function(module, target) {
                Some(f) => {
                    if vals.len() == f.params {
                        match call_function(module, f, &vals, fuel - 1) {
                            Some(rv) => Some(RunValue::Int(rv)),
                            None => None,
                        }
                    } else {
                        None
                    }
                },
                None => None,
            }
        },
    }
}

/// Runs one operation against the current store; `Some(Some(v))` means the
/// enclosing function returned `v`.
fn exec_op(module: &IrModule, store: &mut Vec<Option<i64>>, op: &IrOp, fuel: u64) -> (r: Option<
    Option<i64>,
>)
    ensures
        match spec_exec_op(module@, old(store)@, op_view(*op), fuel as nat) {
            Some(t) => r == Some(t.1) && final(store)@ == t.0,
            None => r is None,
        },
    decreases fuel, 1nat, *op,
{
    match op {
        IrOp::Store(slot, v) => {
            match eval_value(module, store, v, fuel) {
                Some(RunValue::Int(a)) => {
                    if *slot < store.len() {
                        store.set(*slot, Some(a));
                        Some(None)
                    } else {
                        None
                    }
                },
                _ => None,
            }
        },
        IrOp::Return(v) => {
            match eval_value(module, store, v, fuel) {
                Some(RunValue::Int(a)) => Some(Some(a)),
                _ => None,
            }
        },
        IrOp::If(c, thn, els) => {
            match eval_value(module, store, c, fuel) {
                Some(RunValue::Bool(b)) => {
                    if b {
                        exec_ops(module, store, thn, fuel)
                    } else {
                        exec_ops(module, store, els, fuel)
                    }
                },
                _ => None,
            }
        },
        IrOp::While(c, body) => {
            match eval_value(module, store, c, fuel) {
                Some(RunValue::Bool(b)) => {
                    if !b {
                        Some(None)
                    } else {
                        match exec_ops(module, store, body, fuel) {
                            Some(Some(rv)) => Some(Some(rv)),
                            Some(None) => {
                                if fuel == 0 {
                                    None
                                } else {
                                    exec_op(module, store, op, fuel - 1)
                                }
                            },
                            None => None,
                        }
                    }
                },
                _ => None,
            }
        },
    }
}

/// Runs a region first to last against the current store.
fn exec_ops(module: &IrModule, store: &mut Vec<Option<i64>>, ops: &Vec<IrOp>, fuel: u64) -> (r:
    Option<Option<i64>>)
    ensures
        match spec_exec_ops(module@, old(store)@, ops_view(ops@), fuel as nat) {
            Some(t) => r == Some(t.1) && final(store)@ == t.0,
            None => r is None,
        },
    decreases fuel, 1nat, *ops,
{
    let ghost all = ops_view(ops@);
    let ghost store0 = store@;
    proof {
        lemma_ops_view_index(ops@);
        assert(all.skip(0) =~= all);
    }
    let n = ops.len();
    for i in 0..n
        invariant
            n == ops.len(),
            all == ops_view(ops@),
            all.len() == n,
            forall|j: int| 0 <= j < n ==> all[j] == op_view(ops@[j]),
            store0 == old(store)@,
            spec_exec_ops(module@, store0, all, fuel as nat) == spec_exec_ops(
                module@,
                store@,
                all.skip(i as int),
                fuel as nat,
            ),
    {
        proof {
            assert(all.skip(i as int).first() == all[i as int]);
            assert(all.skip(i as int).drop_first() =~= all.skip(i + 1));
            assert(decreases_to!(*ops => ops@));
            assert(decreases_to!(ops@ => ops@[i as int]));
        }
        match exec_op(module, store, &ops[i], fuel) {
            Some(Some(rv)) => {
                return Some(Some(rv));
            },
            Some(None) => {},
            None => {
                return None;
            },
        }
    }
    proof {
        assert(all.skip(n as int) =~= Seq::<SpecOp>::empty());
    }
    Some(None)
}

/// Runs one call of a function on argument values.
fn call_function(module: &IrModule, f: &IrFunction, args: &Vec<i64>, fuel: u64) -> (r: Option<
    i64,
>)
    ensures
        r == spec_call(module@, f@, args@, fuel as nat),
    decreases fuel, 2nat, *f,
{
    let mut store: Vec<Option<i64>> = Vec::new();
    let slots = f.slots;
    for i in 0..slots
        invariant
            slots == f.slots,
            store@.len() == i,
            forall|j: int| 0 <= j < i ==> store@[j] == (if j < args@.len() {
                Some(args@[j])
            } else {
                None::<i64>
            }),
    {
        if i < args.len() {
            let a = args[i];
            store.push(Some(a));
        } else {
            store.push(None);
        }
    }
    proof {
        assert(store@ =~= spec_init_store(args@, f.slots as nat));
    }
    match exec_ops(module, &mut store, &f.body, fuel) {
        Some(Some(v)) => Some(v),
        Some(None) => None,
        None => None,
    }
}

/// The in-process execution contract: resolves `name` against the module
/// and invokes it directly on `args`, bypassing object emission and
/// linking; returns what the reference semantics says, `None` on any fault
/// or when `fuel` calls/iterations are not enough.
pub fn run_function(module: &IrModule, name: &String, args: &Vec<i64>, fuel: u64) -> (r: Option<
    i64,
>)
    ensures
        r == spec_run(module@, name@, args@, fuel as nat),
{
    match lookup_function(module, name) {
        Some(f) => {
            if args.len() == f.params {
                call_function(module, f, args, fuel)
            } else {
                None
            }
        },
        None => None,
    }
}

} // verus!
