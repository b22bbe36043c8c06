//! The abstract syntax tree of the source language.
//!
//! A program is an ordered list of functions; every value in the language is
//! a 64-bit signed integer. The tree is produced by an external parser and is
//! only read, never mutated, by the code generator.

use vstd::prelude::*;

verus! {

/// The possible expressions, usually on the right hand side of a binding:
/// `let x = <expr>;`
#[derive(Debug)]
pub enum Expr {
    Number(i64),
    Variable(String),
    Call { target: String, args: Vec<Expr> },
    Op(Box<Expr>, Opcode, Box<Expr>),
}

/// The binary operators. `Mul`, `Div`, `Add` and `Sub` produce a 64-bit
/// integer; `Eq` and `Neq` produce a boolean, which may only be consumed as
/// an `if`/`while` condition.
#[derive(Debug, Clone, Copy, PartialEq, Eq, Structural)]
pub enum Opcode {
    Mul,
    Div,
    Add,
    Sub,
    Eq,
    Neq,
}

/// A statement, separated by `;` in the source.
#[derive(Debug)]
pub enum Statement {
    Let(LetStmt),
    Assign(AssignStmt),
    If(IfStmt),
    While(WhileStmt),
    Return(ReturnStmt),
}

/// The let statement: binds the value of an expression to a fresh storage
/// slot for the given variable, shadowing any outer slot of the same name.
#[derive(Debug)]
pub struct LetStmt {
    pub variable: String,
    pub expr: Expr,
}

/// The assign statement: writes the value of an expression through the
/// existing slot of an already declared variable. Never allocates.
#[derive(Debug)]
pub struct AssignStmt {
    pub variable: String,
    pub expr: Expr,
}

/// An if with an optional else block: depending on whether the condition
/// evaluates to true, run one or the other block.
#[derive(Debug)]
pub struct IfStmt {
    pub cond: Expr,
    pub then_block: Block,
    pub else_block: Option<Block>,
}

/// A while loop: re-evaluates the condition before each iteration and runs
/// the body as long as it holds.
#[derive(Debug)]
pub struct WhileStmt {
    pub cond: Expr,
    pub body: Block,
}

/// The return statement of a function.
#[derive(Debug)]
pub struct ReturnStmt {
    pub expr: Expr,
}

/// A block is a series of statements, used as the function body and as the
/// nested blocks of `if`/`while`.
#[derive(Debug)]
pub struct Block {
    pub stmts: Vec<Statement>,
}

/// Describes a function, with its parameter names.
/// Note: in this simple language functions always return an i64.
#[derive(Debug)]
pub struct Function {
    pub name: String,
    pub args: Vec<String>,
    pub body: Block,
}

/// The whole program, simply a list of functions.
/// The function named "main" is the conventional entrypoint.
#[derive(Debug)]
pub struct Program {
    pub functions: Vec<Function>,
}

} // verus!
