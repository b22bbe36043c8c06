use tinylang::ast::{
    AssignStmt, Block, Expr, Function, IfStmt, LetStmt, Opcode, Program, ReturnStmt, Statement,
    WhileStmt,
};
use tinylang::codegen::{compile_program, CompileError};
use tinylang::eval::run_function;
use tinylang::ir::{CmpKind, IrFunction, IrModule, IrOp, IrValue};
use tinylang::util::OptLevel;
use tinylang::wf::verify_module;

const FUEL: u64 = 1_000_000;

fn var(name: &str) -> Expr {
    Expr::Variable(name.to_string())
}

fn num(n: i64) -> Expr {
    Expr::Number(n)
}

fn op(l: Expr, o: Opcode, r: Expr) -> Expr {
    Expr::Op(Box::new(l), o, Box::new(r))
}

fn call_expr(target: &str, args: Vec<Expr>) -> Expr {
    Expr::Call { target: target.to_string(), args }
}

fn ret(e: Expr) -> Statement {
    Statement::Return(ReturnStmt { expr: e })
}

fn let_stmt(v: &str, e: Expr) -> Statement {
    Statement::Let(LetStmt { variable: v.to_string(), expr: e })
}

fn assign(v: &str, e: Expr) -> Statement {
    Statement::Assign(AssignStmt { variable: v.to_string(), expr: e })
}

fn if_stmt(cond: Expr, then_block: Vec<Statement>, else_block: Option<Vec<Statement>>) -> Statement {
    Statement::If(IfStmt {
        cond,
        then_block: Block { stmts: then_block },
        else_block: else_block.map(|stmts| Block { stmts }),
    })
}

fn while_stmt(cond: Expr, body: Vec<Statement>) -> Statement {
    Statement::While(WhileStmt { cond, body: Block { stmts: body } })
}

fn func(name: &str, args: &[&str], stmts: Vec<Statement>) -> Function {
    Function {
        name: name.to_string(),
        args: args.iter().map(|a| a.to_string()).collect(),
        body: Block { stmts },
    }
}

fn compile(functions: Vec<Function>) -> IrModule {
    compile_program(&Program { functions }).expect("program should compile")
}

/// `fn test(a, b) { return a <op> b; }`
fn binop_module(o: Opcode) -> IrModule {
    compile(vec![func("test", &["a", "b"], vec![ret(op(var("a"), o, var("b")))])])
}

fn invoke(m: &IrModule, name: &str, args: Vec<i64>) -> Option<i64> {
    run_function(m, &name.to_string(), &args, FUEL)
}

#[test]
fn add() {
    let m = binop_module(Opcode::Add);
    assert_eq!(invoke(&m, "test", vec![2, 2]), Some(4));
}

#[test]
fn sub() {
    let m = binop_module(Opcode::Sub);
    assert_eq!(invoke(&m, "test", vec![2, 2]), Some(0));
}

#[test]
fn subminus() {
    let m = binop_module(Opcode::Sub);
    assert_eq!(invoke(&m, "test", vec![2, 3]), Some(-1));
}

#[test]
fn mul() {
    let m = binop_module(Opcode::Mul);
    assert_eq!(invoke(&m, "test", vec![2, 4]), Some(8));
}

#[test]
fn div() {
    let m = binop_module(Opcode::Div);
    assert_eq!(invoke(&m, "test", vec![4, 2]), Some(2));
}

#[test]
fn div_truncates_toward_zero() {
    let m = binop_module(Opcode::Div);
    assert_eq!(invoke(&m, "test", vec![-7, 2]), Some(-3));
    assert_eq!(invoke(&m, "test", vec![7, -2]), Some(-3));
}

#[test]
fn add_wraps_on_overflow() {
    let m = binop_module(Opcode::Add);
    assert_eq!(invoke(&m, "test", vec![i64::MAX, 1]), Some(i64::MIN));
}

#[test]
fn sub_wraps_on_overflow() {
    let m = binop_module(Opcode::Sub);
    assert_eq!(invoke(&m, "test", vec![i64::MIN, 1]), Some(i64::MAX));
}

#[test]
fn mul_wraps_on_overflow() {
    let m = binop_module(Opcode::Mul);
    assert_eq!(invoke(&m, "test", vec![i64::MAX, 2]), Some(-2));
}

#[test]
fn div_by_zero_faults() {
    let m = binop_module(Opcode::Div);
    assert_eq!(invoke(&m, "test", vec![4, 0]), None);
}

#[test]
fn div_min_by_minus_one_faults() {
    let m = binop_module(Opcode::Div);
    assert_eq!(invoke(&m, "test", vec![i64::MIN, -1]), None);
}

#[test]
fn ifelse() {
    // fn test(a, b) { if (a == b) { return a; } return b; }
    let m = compile(vec![func(
        "test",
        &["a", "b"],
        vec![
            if_stmt(op(var("a"), Opcode::Eq, var("b")), vec![ret(var("a"))], None),
            ret(var("b")),
        ],
    )]);
    assert_eq!(invoke(&m, "test", vec![4, 2]), Some(2));
    assert_eq!(invoke(&m, "test", vec![3, 3]), Some(3));
}

#[test]
fn constant() {
    // fn test(a, b) { let c = 2; return a + b + c; }
    let m = compile(vec![func(
        "test",
        &["a", "b"],
        vec![
            let_stmt("c", num(2)),
            ret(op(op(var("a"), Opcode::Add, var("b")), Opcode::Add, var("c"))),
        ],
    )]);
    assert_eq!(invoke(&m, "test", vec![2, 2]), Some(6));
}

#[test]
fn call() {
    // fn double(x) { return x + x; }
    // fn test(a, b) { return double(a) + double(b); }
    let m = compile(vec![
        func("double", &["x"], vec![ret(op(var("x"), Opcode::Add, var("x")))]),
        func(
            "test",
            &["a", "b"],
            vec![ret(op(
                call_expr("double", vec![var("a")]),
                Opcode::Add,
                call_expr("double", vec![var("b")]),
            ))],
        ),
    ]);
    assert_eq!(invoke(&m, "test", vec![2, 2]), Some(8));
}

fn recursive_factorial() -> Vec<Function> {
    // fn fact(n) { if (n == 0) { return 1; } return n * fact(n - 1); }
    // fn test(a, b) { return fact(a); }
    vec![
        func(
            "fact",
            &["n"],
            vec![
                if_stmt(op(var("n"), Opcode::Eq, num(0)), vec![ret(num(1))], None),
                ret(op(
                    var("n"),
                    Opcode::Mul,
                    call_expr("fact", vec![op(var("n"), Opcode::Sub, num(1))]),
                )),
            ],
        ),
        func("test", &["a", "b"], vec![ret(call_expr("fact", vec![var("a")]))]),
    ]
}

fn iterative_factorial() -> Vec<Function> {
    // fn test(a, b) { let acc = 1; let i = a;
    //                 while (i != 0) { acc = acc * i; i = i - 1; }
    //                 return acc; }
    vec![func(
        "test",
        &["a", "b"],
        vec![
            let_stmt("acc", num(1)),
            let_stmt("i", var("a")),
            while_stmt(
                op(var("i"), Opcode::Neq, num(0)),
                vec![
                    assign("acc", op(var("acc"), Opcode::Mul, var("i"))),
                    assign("i", op(var("i"), Opcode::Sub, num(1))),
                ],
            ),
            ret(var("acc")),
        ],
    )]
}

#[test]
fn factorial() {
    let m = compile(recursive_factorial());
    assert_eq!(invoke(&m, "test", vec![5, 1]), Some(120));
}

#[test]
fn while_loop() {
    let m = compile(iterative_factorial());
    assert_eq!(invoke(&m, "test", vec![5, 1]), Some(120));
}

#[test]
fn recursion_and_iteration_agree() {
    let rec = compile(recursive_factorial());
    let iter = compile(iterative_factorial());
    for n in 0..10 {
        assert_eq!(invoke(&rec, "test", vec![n, 1]), invoke(&iter, "test", vec![n, 1]));
    }
    assert_eq!(invoke(&rec, "test", vec![5, 1]), Some(120));
}

#[test]
fn eq_always_selects_then_branch() {
    // fn test(a, b) { if (a == b) { return 1; } else { return 0; } }
    let m = compile(vec![func(
        "test",
        &["a", "b"],
        vec![if_stmt(
            op(var("a"), Opcode::Eq, var("b")),
            vec![ret(num(1))],
            Some(vec![ret(num(0))]),
        )],
    )]);
    for a in [-5i64, 0, 1, i64::MAX, i64::MIN] {
        assert_eq!(invoke(&m, "test", vec![a, a]), Some(1));
    }
}

#[test]
fn eq_and_neq_are_complementary() {
    let eq_m = compile(vec![func(
        "test",
        &["a", "b"],
        vec![if_stmt(
            op(var("a"), Opcode::Eq, var("b")),
            vec![ret(num(1))],
            Some(vec![ret(num(0))]),
        )],
    )]);
    let neq_m = compile(vec![func(
        "test",
        &["a", "b"],
        vec![if_stmt(
            op(var("a"), Opcode::Neq, var("b")),
            vec![ret(num(1))],
            Some(vec![ret(num(0))]),
        )],
    )]);
    for (a, b) in [(0i64, 0i64), (1, 2), (-3, -3), (i64::MIN, i64::MAX)] {
        let e = invoke(&eq_m, "test", vec![a, b]).unwrap();
        let n = invoke(&neq_m, "test", vec![a, b]).unwrap();
        assert_eq!(e + n, 1);
    }
}

#[test]
fn let_in_block_does_not_leak() {
    // fn test(a, b) { if (a == a) { let x = 1; } return x; }
    let r = compile_program(&Program {
        functions: vec![func(
            "test",
            &["a", "b"],
            vec![
                if_stmt(op(var("a"), Opcode::Eq, var("a")), vec![let_stmt("x", num(1))], None),
                ret(var("x")),
            ],
        )],
    });
    assert!(matches!(r, Err(CompileError::UndeclaredVariable(n)) if n == "x"));
}

#[test]
fn shadowing_let_does_not_escape_its_block() {
    // fn test(a, b) { let x = 1; if (a == a) { let x = 2; } return x; }
    let m = compile(vec![func(
        "test",
        &["a", "b"],
        vec![
            let_stmt("x", num(1)),
            if_stmt(op(var("a"), Opcode::Eq, var("a")), vec![let_stmt("x", num(2))], None),
            ret(var("x")),
        ],
    )]);
    assert_eq!(invoke(&m, "test", vec![0, 0]), Some(1));
}

#[test]
fn assignment_in_block_stays_visible() {
    // fn test(a, b) { let x = 1; if (a == a) { x = 2; } return x; }
    let m = compile(vec![func(
        "test",
        &["a", "b"],
        vec![
            let_stmt("x", num(1)),
            if_stmt(op(var("a"), Opcode::Eq, var("a")), vec![assign("x", num(2))], None),
            ret(var("x")),
        ],
    )]);
    assert_eq!(invoke(&m, "test", vec![0, 0]), Some(2));
}

#[test]
fn assignment_in_while_body_stays_visible() {
    // fn test(a, b) { let x = 0; let go = 0;
    //                 while (go == 0) { x = 7; go = 1; } return x; }
    let m = compile(vec![func(
        "test",
        &["a", "b"],
        vec![
            let_stmt("x", num(0)),
            let_stmt("go", num(0)),
            while_stmt(
                op(var("go"), Opcode::Eq, num(0)),
                vec![assign("x", num(7)), assign("go", num(1))],
            ),
            ret(var("x")),
        ],
    )]);
    assert_eq!(invoke(&m, "test", vec![0, 0]), Some(7));
}

#[test]
fn assign_to_undeclared_is_rejected() {
    let r = compile_program(&Program {
        functions: vec![func("test", &["a"], vec![assign("x", num(1)), ret(var("a"))])],
    });
    assert!(matches!(r, Err(CompileError::AssignToUndeclared(n)) if n == "x"));
}

#[test]
fn undeclared_variable_in_expression_is_rejected() {
    let r = compile_program(&Program {
        functions: vec![func("test", &["a"], vec![ret(op(var("a"), Opcode::Add, var("y")))])],
    });
    assert!(matches!(r, Err(CompileError::UndeclaredVariable(n)) if n == "y"));
}

#[test]
fn comparison_bound_to_variable_is_rejected() {
    // let x = (a == b); — a boolean may only be a condition
    let r = compile_program(&Program {
        functions: vec![func(
            "test",
            &["a", "b"],
            vec![let_stmt("x", op(var("a"), Opcode::Eq, var("b"))), ret(var("x"))],
        )],
    });
    assert!(matches!(r, Err(CompileError::TypeMismatch)));
}

#[test]
fn returning_a_comparison_is_rejected() {
    let r = compile_program(&Program {
        functions: vec![func("test", &["a", "b"], vec![ret(op(var("a"), Opcode::Eq, var("b")))])],
    });
    assert!(matches!(r, Err(CompileError::TypeMismatch)));
}

#[test]
fn integer_condition_is_rejected() {
    // if (a) { ... } — the condition must be a comparison
    let r = compile_program(&Program {
        functions: vec![func(
            "test",
            &["a"],
            vec![if_stmt(var("a"), vec![ret(num(1))], None), ret(num(0))],
        )],
    });
    assert!(matches!(r, Err(CompileError::TypeMismatch)));
}

#[test]
fn comparison_as_arithmetic_operand_is_rejected() {
    // (a == b) + 1
    let r = compile_program(&Program {
        functions: vec![func(
            "test",
            &["a", "b"],
            vec![ret(op(op(var("a"), Opcode::Eq, var("b")), Opcode::Add, num(1)))],
        )],
    });
    assert!(matches!(r, Err(CompileError::TypeMismatch)));
}

#[test]
fn first_error_wins() {
    // the undeclared read in the first statement is reported, not the
    // assignment two statements later
    let r = compile_program(&Program {
        functions: vec![func(
            "test",
            &["a"],
            vec![let_stmt("x", var("nope")), assign("y", num(1)), ret(var("x"))],
        )],
    });
    assert!(matches!(r, Err(CompileError::UndeclaredVariable(n)) if n == "nope"));
}

#[test]
fn unresolved_call_target_faults_at_run_time() {
    // no existence check at lowering time; the evaluator reports the
    // unresolvable symbol as a fault
    let m = compile(vec![func("test", &["a"], vec![ret(call_expr("missing", vec![var("a")]))])]);
    assert_eq!(invoke(&m, "test", vec![1]), None);
}

#[test]
fn arity_mismatch_faults_at_run_time() {
    let m = binop_module(Opcode::Add);
    assert_eq!(invoke(&m, "test", vec![1]), None);
    assert_eq!(invoke(&m, "test", vec![1, 2, 3]), None);
}

#[test]
fn missing_function_name_faults() {
    let m = binop_module(Opcode::Add);
    assert_eq!(invoke(&m, "nosuch", vec![1, 2]), None);
}

#[test]
fn falling_off_the_end_faults() {
    // fn test(a) { let x = a; } — no return; the evaluator reports a fault
    let m = compile(vec![func("test", &["a"], vec![let_stmt("x", var("a"))])]);
    assert_eq!(invoke(&m, "test", vec![1]), None);
}

#[test]
fn infinite_loop_exhausts_fuel() {
    // fn test(a) { while (a == a) { } return a; }
    let m = compile(vec![func(
        "test",
        &["a"],
        vec![while_stmt(op(var("a"), Opcode::Eq, var("a")), vec![]), ret(var("a"))],
    )]);
    let r = run_function(&m, &"test".to_string(), &vec![1], 10_000);
    assert_eq!(r, None);
}

#[test]
fn statements_after_return_are_lowered_but_dead() {
    // fn test(a) { return a; return a + 1; }
    let m = compile(vec![func(
        "test",
        &["a"],
        vec![ret(var("a")), ret(op(var("a"), Opcode::Add, num(1)))],
    )]);
    assert_eq!(invoke(&m, "test", vec![41]), Some(41));
}

#[test]
fn functions_are_compiled_in_declaration_order() {
    let m = compile(recursive_factorial());
    assert_eq!(m.functions.len(), 2);
    assert_eq!(m.functions[0].name, "fact");
    assert_eq!(m.functions[1].name, "test");
}

#[test]
fn compiling_twice_is_deterministic() {
    // same program, two compilations: the modules cannot be told apart by
    // any invocation
    let p = Program { functions: recursive_factorial() };
    let m1 = compile_program(&p).expect("program should compile");
    let m2 = compile_program(&p).expect("program should compile");
    for n in 0..8 {
        assert_eq!(invoke(&m1, "test", vec![n, 0]), invoke(&m2, "test", vec![n, 0]));
    }
    assert_eq!(m1.functions.len(), m2.functions.len());
}

#[test]
fn opt_level_from_u8() {
    assert_eq!(OptLevel::from(0u8), OptLevel::NoOpt);
    assert_eq!(OptLevel::from(1u8), OptLevel::Less);
    assert_eq!(OptLevel::from(2u8), OptLevel::Standard);
    assert_eq!(OptLevel::from(3u8), OptLevel::Aggressive);
    assert_eq!(OptLevel::from(250u8), OptLevel::Aggressive);
    assert_eq!(OptLevel::NoOpt.profile(), 0);
    assert_eq!(OptLevel::Aggressive.profile(), 3);
}

#[test]
fn compiled_modules_are_well_formed() {
    assert!(verify_module(&binop_module(Opcode::Add)));
    assert!(verify_module(&compile(recursive_factorial())));
    assert!(verify_module(&compile(iterative_factorial())));
}

#[test]
fn verifier_rejects_out_of_range_slot() {
    let m = IrModule {
        functions: vec![IrFunction {
            name: "broken".to_string(),
            params: 0,
            slots: 1,
            body: vec![IrOp::Store(5, IrValue::Const(0))],
        }],
    };
    assert!(!verify_module(&m));
}

#[test]
fn verifier_rejects_boolean_in_integer_position() {
    let m = IrModule {
        functions: vec![IrFunction {
            name: "broken".to_string(),
            params: 0,
            slots: 0,
            body: vec![IrOp::Return(IrValue::Cmp(
                CmpKind::Eq,
                Box::new(IrValue::Const(1)),
                Box::new(IrValue::Const(1)),
            ))],
        }],
    };
    assert!(!verify_module(&m));
}
