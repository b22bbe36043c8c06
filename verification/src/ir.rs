//! The structured, region-based intermediate representation that the code
//! generator produces.
//!
//! A function's mutable state is a row of storage slots, numbered from zero;
//! the first `params` slots hold the spilled arguments. Value expressions are
//! trees over slot loads, constants, arithmetic, comparisons and calls;
//! operations either write a slot, return from the function, or hold nested
//! regions (`If`, `While`). Two value types exist: 64-bit signed integers
//! (`I64`) and booleans (`I1`); a boolean may only appear as the condition of
//! an `If` or `While`.
//!
//! Each executable type has a ghost mirror (`Spec*`) over `Seq`, `nat` and
//! `Seq<char>`, which the contracts of the compiler and of the reference
//! evaluator are stated over.

use vstd::prelude::*;

verus! {

/// The two value types of the representation: 64-bit signed integers and
/// booleans (one-bit integers).
#[derive(Debug, Clone, Copy, PartialEq, Eq, Structural)]
pub enum IrType {
    I64,
    I1,
}

/// The arithmetic operations; all four are signed 64-bit with two's-complement
/// wraparound, except `Div`, whose zero and overflow cases trap at run time.
#[derive(Debug, Clone, Copy, PartialEq, Eq, Structural)]
pub enum ArithKind {
    Add,
    Sub,
    Mul,
    Div,
}

/// The comparison predicates; both compare 64-bit integers and produce a
/// boolean.
#[derive(Debug, Clone, Copy, PartialEq, Eq, Structural)]
pub enum CmpKind {
    Eq,
    Ne,
}

/// A value-producing expression tree.
#[derive(Debug)]
pub enum IrValue {
    /// A 64-bit integer constant.
    Const(i64),
    /// Read the current contents of a storage slot.
    Load(usize),
    /// A signed 64-bit arithmetic operation.
    Arith(ArithKind, Box<IrValue>, Box<IrValue>),
    /// A signed 64-bit comparison, producing a boolean.
    Cmp(CmpKind, Box<IrValue>, Box<IrValue>),
    /// A direct call: N 64-bit integer arguments, one 64-bit integer result.
    Call(String, Vec<IrValue>),
}

/// One operation of a region.
#[derive(Debug)]
pub enum IrOp {
    /// Write a 64-bit integer value into a storage slot.
    Store(usize, IrValue),
    /// Return from the enclosing function with a 64-bit integer value.
    Return(IrValue),
    /// Structured conditional: a boolean condition, a then region and an
    /// else region (empty if the source had no else block). The construct
    /// produces no value.
    If(IrValue, Vec<IrOp>, Vec<IrOp>),
    /// Structured loop: re-evaluate the boolean condition before each
    /// iteration and run the body region while it holds.
    While(IrValue, Vec<IrOp>),
}

/// One callable unit: `params` arguments are spilled into slots `0 ..
/// params` on entry, `slots` counts every slot the body may touch, and
/// `body` is the top-level region.
#[derive(Debug)]
pub struct IrFunction {
    pub name: String,
    pub params: usize,
    pub slots: usize,
    pub body: Vec<IrOp>,
}

/// The whole module: one callable unit per source function, in declaration
/// order, keyed by (unvalidated) name.
#[derive(Debug)]
pub struct IrModule {
    pub functions: Vec<IrFunction>,
}

/// Ghost mirror of [`IrValue`].
pub ghost enum SpecValue {
    Const(i64),
    Load(nat),
    Arith(ArithKind, Box<SpecValue>, Box<SpecValue>),
    Cmp(CmpKind, Box<SpecValue>, Box<SpecValue>),
    Call(Seq<char>, Seq<SpecValue>),
}

/// Ghost mirror of [`IrOp`].
pub ghost enum SpecOp {
    Store(nat, SpecValue),
    Return(SpecValue),
    If(SpecValue, Seq<SpecOp>, Seq<SpecOp>),
    While(SpecValue, Seq<SpecOp>),
}

/// Ghost mirror of [`IrFunction`].
pub ghost struct SpecFunction {
    pub name: Seq<char>,
    pub params: nat,
    pub slots: nat,
    pub body: Seq<SpecOp>,
}

/// Ghost mirror of [`IrModule`].
pub ghost struct SpecModule {
    pub functions: Seq<SpecFunction>,
}

/// What an [`IrValue`] stands for.
pub open spec fn value_view(v: IrValue) -> SpecValue
    decreases v,
{
    match v {
        IrValue::Const(n) => SpecValue::Const(n),
        IrValue::Load(s) => SpecValue::Load(s as nat),
        IrValue::Arith(k, l, r) => SpecValue::Arith(
            k,
            Box::new(value_view(*l)),
            Box::new(value_view(*r)),
        ),
        IrValue::Cmp(k, l, r) => SpecValue::Cmp(k, Box::new(value_view(*l)), Box::new(value_view(*r))),
        IrValue::Call(target, args) => SpecValue::Call(target@, values_view(args@)),
    }
}

/// Pointwise [`value_view`] over a sequence.
pub open spec fn values_view(s: Seq<IrValue>) -> Seq<SpecValue>
    decreases s,
{
    if s.len() == 0 {
        Seq::empty()
    } else {
        values_view(s.drop_last()).push(value_view(s.last()))
    }
}

/// What an [`IrOp`] stands for.
pub open spec fn op_view(op: IrOp) -> SpecOp
    decreases op,
{
    match op {
        IrOp::Store(slot, v) => SpecOp::Store(slot as nat, value_view(v)),
        IrOp::Return(v) => SpecOp::Return(value_view(v)),
        IrOp::If(c, thn, els) => SpecOp::If(value_view(c), ops_view(thn@), ops_view(els@)),
        IrOp::While(c, body) => SpecOp::While(value_view(c), ops_view(body@)),
    }
}

/// Pointwise [`op_view`] over a region.
pub open spec fn ops_view(s: Seq<IrOp>) -> Seq<SpecOp>
    decreases s,
{
    if s.len() == 0 {
        Seq::empty()
    } else {
        ops_view(s.drop_last()).push(op_view(s.last()))
    }
}

impl View for IrValue {
    type V = SpecValue;

    open spec fn view(&self) -> SpecValue {
        value_view(*self)
    }
}

impl View for IrOp {
    type V = SpecOp;

    open spec fn view(&self) -> SpecOp {
        op_view(*self)
    }
}

impl View for IrFunction {
    type V = SpecFunction;

    open spec fn view(&self) -> SpecFunction {
        SpecFunction {
            name: self.name@,
            params: self.params as nat,
            slots: self.slots as nat,
            body: ops_view(self.body@),
        }
    }
}

/// Pointwise view over the functions of a module.
pub open spec fn functions_view(s: Seq<IrFunction>) -> Seq<SpecFunction>
    decreases s,
{
    if s.len() == 0 {
        Seq::empty()
    } else {
        functions_view(s.drop_last()).push(s.last()@)
    }
}

impl View for IrModule {
    type V = SpecModule;

    open spec fn view(&self) -> SpecModule {
        SpecModule { functions: functions_view(self.functions@) }
    }
}

/// Appending one operation appends its view.
pub proof fn lemma_ops_view_push(s: Seq<IrOp>, x: IrOp)
    ensures
        ops_view(s.push(x)) == ops_view(s).push(op_view(x)),
{
    assert(s.push(x).drop_last() =~= s);
    assert(s.push(x).last() == x);
}

/// Appending one value appends its view.
pub proof fn lemma_values_view_push(s: Seq<IrValue>, x: IrValue)
    ensures
        values_view(s.push(x)) == values_view(s).push(value_view(x)),
{
    assert(s.push(x).drop_last() =~= s);
    assert(s.push(x).last() == x);
}

/// Appending one function appends its view.
pub proof fn lemma_functions_view_push(s: Seq<IrFunction>, x: IrFunction)
    ensures
        functions_view(s.push(x)) == functions_view(s).push(x@),
{
    assert(s.push(x).drop_last() =~= s);
    assert(s.push(x).last() == x);
}

/// The view of a concatenation is the concatenation of the views.
pub proof fn lemma_ops_view_concat(a: Seq<IrOp>, b: Seq<IrOp>)
    ensures
        ops_view(a + b) == ops_view(a) + ops_view(b),
    decreases b,
{
    if b.len() == 0 {
        assert(a + b =~= a);
        assert(ops_view(a) + ops_view(b) =~= ops_view(a));
    } else {
        lemma_ops_view_concat(a, b.drop_last());
        assert((a + b).drop_last() =~= a + b.drop_last());
        assert((a + b).last() == b.last());
        assert(ops_view(a) + ops_view(b.drop_last()).push(op_view(b.last())) =~= ops_view(a)
            + ops_view(b));
    }
}

/// The views of a sequence line up with the sequence: same length, matching
/// elements.
pub proof fn lemma_ops_view_index(s: Seq<IrOp>)
    ensures
        ops_view(s).len() == s.len(),
        forall|i: int| 0 <= i < s.len() ==> ops_view(s)[i] == op_view(s[i]),
    decreases s,
{
    if s.len() > 0 {
        lemma_ops_view_index(s.drop_last());
    }
}

/// Same for value sequences.
pub proof fn lemma_values_view_index(s: Seq<IrValue>)
    ensures
        values_view(s).len() == s.len(),
        forall|i: int| 0 <= i < s.len() ==> values_view(s)[i] == value_view(s[i]),
    decreases s,
{
    if s.len() > 0 {
        lemma_values_view_index(s.drop_last());
    }
}

/// Same for function sequences.
pub proof fn lemma_functions_view_index(s: Seq<IrFunction>)
    ensures
        functions_view(s).len() == s.len(),
        forall|i: int| 0 <= i < s.len() ==> functions_view(s)[i] == s[i]@,
    decreases s,
{
    if s.len() > 0 {
        lemma_functions_view_index(s.drop_last());
    }
}

} // verus!
