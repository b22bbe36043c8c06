//! The code generator: lowers a [`Program`] into an [`IrModule`].
//!
//! Every executable compile function here and in the submodules agrees with
//! a functional compiler written in spec code (`spec_compile_*`); the public
//! contracts are stated through it, so the compiled module is a function of
//! the program alone. Name resolution and type errors are reported as
//! [`CompileError`] values, never panics; a failed compilation hands back no
//! partial module.
//!
//! The source language leaves the boolean/integer distinction untyped; this
//! lowering resolves that openly by checking at lowering time: an operand of
//! arithmetic, a comparison operand, a call argument, a bound or returned
//! value must be a 64-bit integer, and an `if`/`while` condition must be a
//! boolean, anything else failing with [`CompileError::TypeMismatch`]. A
//! function body that does not end in `Return` is accepted by the lowering;
//! the reference evaluator reports a fault if execution falls off the end.

use vstd::prelude::*;

use crate::ast::{Block, Function, Program, Statement};
use crate::ir::{
    functions_view, lemma_functions_view_push, lemma_ops_view_concat, ops_view, IrFunction,
    IrModule, IrOp, SpecFunction, SpecModule, SpecOp,
};
use crate::scope::Scope;

pub mod expressions;
pub mod ifelse_stmt;
pub mod let_stmt;
pub mod return_stmt;
pub mod while_stmt;

use ifelse_stmt::{compile_if, spec_compile_if};
use let_stmt::{compile_assign, compile_let, spec_compile_assign, spec_compile_let};
use return_stmt::{compile_return, spec_compile_return};
use while_stmt::{compile_while, spec_compile_while};

verus! {

/// Ghost mirror of [`CompileError`].
pub ghost enum SpecCompileError {
    UndeclaredVariable(Seq<char>),
    AssignToUndeclared(Seq<char>),
    TypeMismatch,
    TooManyVariables,
}

/// The recoverable compile-time errors.
#[derive(Debug)]
pub enum CompileError {
    /// An expression referenced a variable with no enclosing binding.
    UndeclaredVariable(String),
    /// An assignment targeted a variable with no enclosing binding.
    AssignToUndeclared(String),
    /// A boolean-typed value was used where a 64-bit integer is required,
    /// or an integer where an `if`/`while` condition (boolean) is required.
    TypeMismatch,
    /// Storage slots would exceed the machine's addressable count; in
    /// practice unreachable, stated only because slot numbers live in a
    /// `usize`.
    TooManyVariables,
}

impl View for CompileError {
    type V = SpecCompileError;

    open spec fn view(&self) -> SpecCompileError {
        match self {
            CompileError::UndeclaredVariable(n) => SpecCompileError::UndeclaredVariable(n@),
            CompileError::AssignToUndeclared(n) => SpecCompileError::AssignToUndeclared(n@),
            CompileError::TypeMismatch => SpecCompileError::TypeMismatch,
            CompileError::TooManyVariables => SpecCompileError::TooManyVariables,
        }
    }
}

/// What lowering one statement yields: the scope map and next free slot
/// afterwards, and the operations emitted into the current region.
pub open spec fn spec_compile_stmt(
    m: Map<Seq<char>, nat>,
    next: nat,
    s: Statement,
) -> Result<(Map<Seq<char>, nat>, nat, Seq<SpecOp>), SpecCompileError>
    decreases s,
{
    match s {
        Statement::Let(l) => spec_compile_let(m, next, l),
        Statement::Assign(a) => spec_compile_assign(m, next, a),
        Statement::If(i) => spec_compile_if(m, next, i),
        Statement::While(w) => spec_compile_while(m, next, w),
        Statement::Return(r) => spec_compile_return(m, next, r),
    }
}

/// Lowering a row of statements, first to last, threading the scope map and
/// the slot counter and concatenating the emitted operations; the first
/// error wins.
pub open spec fn spec_compile_stmts(
    m: Map<Seq<char>, nat>,
    next: nat,
    ss: Seq<Statement>,
) -> Result<(Map<Seq<char>, nat>, nat, Seq<SpecOp>), SpecCompileError>
    decreases ss,
{
    if ss.len() == 0 {
        Ok((m, next, Seq::empty()))
    } else {
        match spec_compile_stmt(m, next, ss.first()) {
            Ok((m1, n1, ops1)) => match spec_compile_stmts(m1, n1, ss.drop_first()) {
                Ok((m2, n2, ops2)) => Ok((m2, n2, ops1 + ops2)),
                Err(e) => Err(e),
            },
            Err(e) => Err(e),
        }
    }
}

/// The scope a function body starts from: parameter `i` is bound to slot
/// `i`; a repeated parameter name is won by the later parameter.
pub open spec fn spec_params_map(args: Seq<String>) -> Map<Seq<char>, nat>
    decreases args,
{
    if args.len() == 0 {
        Map::empty()
    } else {
        spec_params_map(args.drop_last()).insert(args.last()@, (args.len() - 1) as nat)
    }
}

/// What lowering one function yields: arguments spilled into the first
/// slots, the body lowered under a fresh top-level scope.
pub open spec fn spec_compile_function(f: Function) -> Result<SpecFunction, SpecCompileError> {
    match spec_compile_stmts(spec_params_map(f.args@), f.args@.len() as nat, f.body.stmts@) {
        Ok((m1, n1, ops)) => Ok(
            SpecFunction { name: f.name@, params: f.args@.len() as nat, slots: n1, body: ops },
        ),
        Err(e) => Err(e),
    }
}

/// Lowering every function, in declaration order; the first error wins.
pub open spec fn spec_compile_functions(fs: Seq<Function>) -> Result<
    Seq<SpecFunction>,
    SpecCompileError,
>
    decreases fs,
{
    if fs.len() == 0 {
        Ok(Seq::empty())
    } else {
        match spec_compile_function(fs.first()) {
            Ok(sf) => match spec_compile_functions(fs.drop_first()) {
                Ok(rest) => Ok(seq![sf] + rest),
                Err(e) => Err(e),
            },
            Err(e) => Err(e),
        }
    }
}

/// What compiling a whole program yields: the module, a function of the
/// program alone.
pub open spec fn spec_compile_program(p: Program) -> Result<SpecModule, SpecCompileError> {
    match spec_compile_functions(p.functions@) {
        Ok(fs) => Ok(SpecModule { functions: fs }),
        Err(e) => Err(e),
    }
}

/// The common contract of lowering one statement into the current region:
/// on success the scope map, the slot counter and the region all advance
/// exactly as the spec compiler says, existing operations staying in place;
/// on an error everything is left as it was.
pub open spec fn stmt_lowering_post(
    m0: Map<Seq<char>, nat>,
    n0: nat,
    ops0: Seq<IrOp>,
    m1: Map<Seq<char>, nat>,
    n1: nat,
    ops1: Seq<IrOp>,
    r: Result<(), CompileError>,
    s: Result<(Map<Seq<char>, nat>, nat, Seq<SpecOp>), SpecCompileError>,
) -> bool {
    match s {
        Ok(t) => {
            &&& r is Ok
            &&& m1 == t.0
            &&& n1 == t.1
            &&& ops1.len() == ops0.len() + t.2.len()
            &&& ops1.subrange(0, ops0.len() as int) == ops0
            &&& ops_view(ops1.skip(ops0.len() as int)) == t.2
        },
        Err(e) => {
            &&& r matches Err(e2) && e2@ == e
            &&& m1 == m0
            &&& n1 == n0
            &&& ops1 == ops0
        },
    }
}

/// The common contract of lowering a whole block: as
/// [`stmt_lowering_post`], except that on an error the statements already
/// lowered stay emitted (the caller discards the region).
pub open spec fn block_lowering_post(
    m0: Map<Seq<char>, nat>,
    n0: nat,
    ops0: Seq<IrOp>,
    m1: Map<Seq<char>, nat>,
    n1: nat,
    ops1: Seq<IrOp>,
    r: Result<(), CompileError>,
    s: Result<(Map<Seq<char>, nat>, nat, Seq<SpecOp>), SpecCompileError>,
) -> bool {
    match s {
        Ok(t) => {
            &&& r is Ok
            &&& m1 == t.0
            &&& n1 == t.1
            &&& ops1.len() == ops0.len() + t.2.len()
            &&& ops1.subrange(0, ops0.len() as int) == ops0
            &&& ops_view(ops1.skip(ops0.len() as int)) == t.2
        },
        Err(e) => {
            &&& r matches Err(e2) && e2@ == e
            &&& ops1.len() >= ops0.len()
            &&& ops1.subrange(0, ops0.len() as int) == ops0
        },
    }
}

/// Lowers one statement into the current region, dispatching on its kind.
pub fn compile_statement(
    scope: &mut Scope,
    next_slot: &mut usize,
    ops: &mut Vec<IrOp>,
    stmt: &Statement,
) -> (r: Result<(), CompileError>)
    ensures
        stmt_lowering_post(
            old(scope)@,
            *old(next_slot) as nat,
            old(ops)@,
            final(scope)@,
            *final(next_slot) as nat,
            final(ops)@,
            r,
            spec_compile_stmt(old(scope)@, *old(next_slot) as nat, *stmt),
        ),
    decreases *stmt,
{
    match stmt {
        Statement::Let(let_stmt) => compile_let(scope, next_slot, ops, let_stmt),
        Statement::Assign(assign_stmt) => compile_assign(scope, next_slot, ops, assign_stmt),
        Statement::If(if_stmt) => compile_if(scope, next_slot, ops, if_stmt),
        Statement::While(while_stmt) => compile_while(scope, next_slot, ops, while_stmt),
        Statement::Return(return_stmt) => compile_return(scope, next_slot, ops, return_stmt),
    }
}

/// Lowers every statement of a block, first to last, into the current
/// region, stopping at the first error.
pub fn compile_block_into(
    scope: &mut Scope,
    next_slot: &mut usize,
    ops: &mut Vec<IrOp>,
    block: &Block,
) -> (r: Result<(), CompileError>)
    ensures
        block_lowering_post(
            old(scope)@,
            *old(next_slot) as nat,
            old(ops)@,
            final(scope)@,
            *final(next_slot) as nat,
            final(ops)@,
            r,
            spec_compile_stmts(old(scope)@, *old(next_slot) as nat, block.stmts@),
        ),
    decreases *block,
{
    let ghost m0 = scope@;
    let ghost n0 = *next_slot as nat;
    let ghost ops0 = ops@;
    let ghost all = block.stmts@;
    let n = block.stmts.len();
    proof {
        assert(all.skip(0) =~= all);
        assert(ops@.subrange(0, ops0.len() as int) =~= ops0);
        assert(ops@.skip(ops0.len() as int) =~= Seq::<IrOp>::empty());
        if spec_compile_stmts(m0, n0, all) is Ok {
            let t = spec_compile_stmts(m0, n0, all)->Ok_0;
            assert(ops_view(ops@.skip(ops0.len() as int)) + t.2 =~= t.2);
        }
    }
    for i in 0..n
        invariant
            n == block.stmts.len(),
            all == block.stmts@,
            m0 == old(scope)@,
            n0 == *old(next_slot) as nat,
            ops0 == old(ops)@,
            ops@.len() >= ops0.len(),
            ops@.subrange(0, ops0.len() as int) == ops0,
            spec_compile_stmts(m0, n0, all) == (match spec_compile_stmts(
                scope@,
                *next_slot as nat,
                all.skip(i as int),
            ) {
                Ok(t) => Ok::<_, SpecCompileError>(
                    (t.0, t.1, ops_view(ops@.skip(ops0.len() as int)) + t.2),
                ),
                Err(e) => Err(e),
            }),
        decreases n - i,
    {
        let ghost scope_i = scope@;
        let ghost next_i = *next_slot as nat;
        let ghost ops_i = ops@;
        let r = compile_statement(scope, next_slot, ops, &block.stmts[i]);
        proof {
            assert(all.skip(i as int).first() == all[i as int]);
            assert(all.skip(i as int).drop_first() =~= all.skip(i + 1));
        }
        match r {
            Ok(()) => {
                proof {
                    lemma_ops_view_concat(
                        ops_i.skip(ops0.len() as int),
                        ops@.skip(ops_i.len() as int),
                    );
                    assert(ops@.skip(ops0.len() as int) =~= ops_i.skip(ops0.len() as int)
                        + ops@.skip(ops_i.len() as int));
                    assert(ops@.subrange(0, ops0.len() as int) =~= ops0);
                    if spec_compile_stmts(scope@, *next_slot as nat, all.skip(i + 1)) is Ok {
                        let t2 = spec_compile_stmts(scope@, *next_slot as nat, all.skip(i + 1))->Ok_0;
                        let emitted = ops_view(ops@.skip(ops_i.len() as int));
                        assert((ops_view(ops_i.skip(ops0.len() as int)) + emitted) + t2.2
                            =~= ops_view(ops_i.skip(ops0.len() as int)) + (emitted + t2.2));
                    }
                }
            },
            Err(e) => {
                return Err(e);
            },
        }
    }
    proof {
        assert(all.skip(n as int) =~= Seq::<Statement>::empty());
        crate::ir::lemma_ops_view_index(ops@.skip(ops0.len() as int));
        if spec_compile_stmts(m0, n0, all) is Ok {
            assert(ops_view(ops@.skip(ops0.len() as int)) + Seq::<SpecOp>::empty() =~= ops_view(
                ops@.skip(ops0.len() as int),
            ));
        }
    }
    Ok(())
}

/// Lowers one function: allocates one slot per parameter (arguments are
/// spilled to storage so they read and write like any other variable),
/// lowers the body under a fresh top-level scope, and assembles the
/// callable unit.
pub fn compile_function(func: &Function) -> (r: Result<IrFunction, CompileError>)
    ensures
        match (r, spec_compile_function(*func)) {
            (Ok(out), Ok(sf)) => out@ == sf,
            (Err(e), Err(se)) => e@ == se,
            _ => false,
        },
{
    let mut scope = Scope::new();
    let n_args = func.args.len();
    for i in 0..n_args
        invariant
            n_args == func.args.len(),
            scope@ == spec_params_map(func.args@.subrange(0, i as int)),
    {
        proof {
            assert(func.args@.subrange(0, i + 1).drop_last() =~= func.args@.subrange(0, i as int));
            assert(func.args@.subrange(0, i + 1).last() == func.args@[i as int]);
        }
        scope.declare(&func.args[i], i);
    }
    proof {
        assert(func.args@.subrange(0, n_args as int) =~= func.args@);
    }
    let mut next_slot: usize = n_args;
    let mut ops: Vec<IrOp> = Vec::new();
    match compile_block_into(&mut scope, &mut next_slot, &mut ops, &func.body) {
        Ok(()) => {
            let out = IrFunction {
                name: func.name.clone(),
                params: n_args,
                slots: next_slot,
                body: ops,
            };
            proof {
                assert(out.body@.skip(0) =~= out.body@);
            }
            Ok(out)
        },
        Err(e) => Err(e),
    }
}

/// Lowers a whole program: one callable unit per function, inserted into
/// the module in declaration order, stopping at the first error. A failed
/// compilation yields the error alone, never a partial module.
pub fn compile_program(program: &Program) -> (r: Result<IrModule, CompileError>)
    ensures
        match (r, spec_compile_program(*program)) {
            (Ok(m), Ok(sm)) => m@ == sm,
            (Err(e), Err(se)) => e@ == se,
            _ => false,
        },
{
    let ghost all = program.functions@;
    let mut functions: Vec<IrFunction> = Vec::new();
    let n = program.functions.len();
    proof {
        assert(all.skip(0) =~= all);
        if spec_compile_functions(all) is Ok {
            let rest0 = spec_compile_functions(all)->Ok_0;
            assert(functions_view(functions@) + rest0 =~= rest0);
        }
    }
    for i in 0..n
        invariant
            n == program.functions.len(),
            all == program.functions@,
            spec_compile_functions(all) == (match spec_compile_functions(all.skip(i as int)) {
                Ok(rest) => Ok::<_, SpecCompileError>(functions_view(functions@) + rest),
                Err(e) => Err(e),
            }),
    {
        proof {
            assert(all.skip(i as int).first() == all[i as int]);
            assert(all.skip(i as int).drop_first() =~= all.skip(i + 1));
        }
        match compile_function(&program.functions[i]) {
            Ok(f) => {
                let ghost before = functions@;
                functions.push(f);
                proof {
                    lemma_functions_view_push(before, f);
                    if spec_compile_functions(all.skip(i + 1)) is Ok {
                        let rest = spec_compile_functions(all.skip(i + 1))->Ok_0;
                        assert(functions_view(before).push(f@) + rest =~= functions_view(before) + (
                        seq![f@] + rest));
                    }
                }
            },
            Err(e) => {
                return Err(e);
            },
        }
    }
    proof {
        assert(all.skip(n as int) =~= Seq::<Function>::empty());
        if spec_compile_functions(all) is Ok {
            assert(functions_view(functions@) + Seq::<SpecFunction>::empty() =~= functions_view(
                functions@,
            ));
        }
    }
    Ok(IrModule { functions })
}

} // verus!
