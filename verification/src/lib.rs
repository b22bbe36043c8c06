//! A verified code generator for a small imperative language over 64-bit
//! signed integers.
//!
//! The crate lowers a parsed [`ast::Program`] into a structured, region-based
//! intermediate representation ([`ir::IrModule`]): variables live in storage
//! slots, lexical scoping is handled by copy-on-enter scope snapshots, and
//! `if`/`while` become structured two-region constructs. The lowering is
//! specified by a functional compiler written in spec code, and every
//! executable compile function is proved to agree with it. The intermediate
//! representation's meaning is given by a reference evaluator ([`eval`]),
//! against which the language's arithmetic, comparison, scoping and
//! assignment-visibility laws are proved ([`laws`]); a well-formedness
//! judgment with its verifier, and the theorem that the code generator only
//! emits well-formed modules, live in [`wf`].
//!
//! Turning the finished module into native code (optimization passes, object
//! emission, linking) is the job of an external backend and is not part of
//! this library.

pub mod ast;
pub mod codegen;
pub mod eval;
pub mod ir;
pub mod laws;
pub mod scope;
pub mod util;
pub mod wf;
