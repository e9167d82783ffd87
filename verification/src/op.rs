//! A small arithmetic enum with the transformation written out by hand,
//! exactly as the engine generates it: the rewritten enum, the companion
//! trait, the wrapper records under the reserved prefix, and the
//! conversions from each wrapper into the enum. This is the consumer-
//! facing shape of the engine's output; its evaluator shows that a value
//! built through a wrapper behaves as direct construction would.

use vstd::prelude::*;

verus! {

/// A register index into the evaluation environment.
#[derive(Debug, Clone, Copy, PartialEq, Eq, Structural)]
pub struct Reg(pub usize);

/// A machine word held in a register.
#[derive(Debug, Clone, Copy, PartialEq, Eq, Structural)]
pub struct Value(pub u64);

/// The wrapper record of the `Add` variant.
#[allow(non_camel_case_types)]
#[derive(Debug, Clone, Copy, PartialEq, Eq, Structural)]
pub struct __enum_newtype_Add {
    pub lhs: Reg,
    pub rhs: Reg,
}

/// The wrapper record of the `Sub` variant.
#[allow(non_camel_case_types)]
#[derive(Debug, Clone, Copy, PartialEq, Eq, Structural)]
pub struct __enum_newtype_Sub {
    pub lhs: Reg,
    pub rhs: Reg,
}

/// The wrapper record of the `Mul` variant.
#[allow(non_camel_case_types)]
#[derive(Debug, Clone, Copy, PartialEq, Eq, Structural)]
pub struct __enum_newtype_Mul {
    pub lhs: Reg,
    pub rhs: Reg,
}

/// The wrapper record of the `Const` variant.
#[allow(non_camel_case_types)]
#[derive(Debug, Clone, Copy, PartialEq, Eq, Structural)]
pub struct __enum_newtype_Const {
    pub value: Value,
}

/// The companion trait: one associated type per variant, named after it.
pub trait OpVariants {
    type Add;

    type Sub;

    type Mul;

    type Const;
}

/// The rewritten enum: one constructor per original variant, each taking
/// exactly the corresponding wrapper record.
#[derive(Debug, Clone, Copy, PartialEq, Eq, Structural)]
pub enum Op {
    /// Add docs.
    Add(__enum_newtype_Add),
    /// Sub docs.
    Sub(__enum_newtype_Sub),
    /// Mul docs.
    Mul(__enum_newtype_Mul),
    /// Const docs.
    Const(__enum_newtype_Const),
}

impl OpVariants for Op {
    type Add = __enum_newtype_Add;

    type Sub = __enum_newtype_Sub;

    type Mul = __enum_newtype_Mul;

    type Const = __enum_newtype_Const;
}

impl core::convert::From<__enum_newtype_Add> for Op {
    fn from(variant: __enum_newtype_Add) -> Op {
        Op::Add(variant)
    }
}

impl vstd::std_specs::convert::FromSpecImpl<__enum_newtype_Add> for Op {
    open spec fn obeys_from_spec() -> bool {
        true
    }

    open spec fn from_spec(v: __enum_newtype_Add) -> Op {
        Op::Add(v)
    }
}

impl core::convert::From<__enum_newtype_Sub> for Op {
    fn from(variant: __enum_newtype_Sub) -> Op {
        Op::Sub(variant)
    }
}

impl vstd::std_specs::convert::FromSpecImpl<__enum_newtype_Sub> for Op {
    open spec fn obeys_from_spec() -> bool {
        true
    }

    open spec fn from_spec(v: __enum_newtype_Sub) -> Op {
        Op::Sub(v)
    }
}

impl core::convert::From<__enum_newtype_Mul> for Op {
    fn from(variant: __enum_newtype_Mul) -> Op {
        Op::Mul(variant)
    }
}

impl vstd::std_specs::convert::FromSpecImpl<__enum_newtype_Mul> for Op {
    open spec fn obeys_from_spec() -> bool {
        true
    }

    open spec fn from_spec(v: __enum_newtype_Mul) -> Op {
        Op::Mul(v)
    }
}

impl core::convert::From<__enum_newtype_Const> for Op {
    fn from(variant: __enum_newtype_Const) -> Op {
        Op::Const(variant)
    }
}

impl vstd::std_specs::convert::FromSpecImpl<__enum_newtype_Const> for Op {
    open spec fn obeys_from_spec() -> bool {
        true
    }

    open spec fn from_spec(v: __enum_newtype_Const) -> Op {
        Op::Const(v)
    }
}

/// Whether every register an operation reads lies inside the
/// environment.
pub open spec fn regs_in_bounds(op: Op, regs: Seq<Value>) -> bool {
    match op {
        Op::Add(inner) => inner.lhs.0 < regs.len() && inner.rhs.0 < regs.len(),
        Op::Sub(inner) => inner.lhs.0 < regs.len() && inner.rhs.0 < regs.len(),
        Op::Mul(inner) => inner.lhs.0 < regs.len() && inner.rhs.0 < regs.len(),
        Op::Const(_) => true,
    }
}

/// The mathematical result of an operation over an environment.
pub open spec fn spec_eval(op: Op, regs: Seq<Value>) -> int {
    match op {
        Op::Add(inner) => regs[inner.lhs.0 as int].0 + regs[inner.rhs.0 as int].0,
        Op::Sub(inner) => regs[inner.lhs.0 as int].0 - regs[inner.rhs.0 as int].0,
        Op::Mul(inner) => regs[inner.lhs.0 as int].0 * regs[inner.rhs.0 as int].0,
        Op::Const(inner) => inner.value.0 as int,
    }
}

impl Op {
    /// Evaluates the operation over the registers. The payload read out of
    /// a variant is the wrapper record the variant was constructed from,
    /// so evaluation behaves exactly as direct field access would.
    pub fn eval(&self, regs: &[Value]) -> (r: Value)
        requires
            regs_in_bounds(*self, regs@),
            0 <= spec_eval(*self, regs@) <= u64::MAX,
        ensures
            r.0 == spec_eval(*self, regs@),
    {
        Value(
            match self {
                Self::Add(op) => regs[op.lhs.0].0 + regs[op.rhs.0].0,
                Self::Sub(op) => regs[op.lhs.0].0 - regs[op.rhs.0].0,
                Self::Mul(op) => regs[op.lhs.0].0 * regs[op.rhs.0].0,
                Self::Const(op) => op.value.0,
            },
        )
    }
}

/// Law: round-trip construction. Converting a wrapper record into the
/// enum yields exactly the corresponding variant holding that wrapper, so
/// a value built through the conversion is indistinguishable from one
/// built directly.
pub proof fn lemma_op_round_trip(
    a: __enum_newtype_Add,
    s: __enum_newtype_Sub,
    m: __enum_newtype_Mul,
    c: __enum_newtype_Const,
)
    ensures
        <Op as vstd::std_specs::convert::FromSpec<__enum_newtype_Add>>::obeys_from_spec(),
        <Op as vstd::std_specs::convert::FromSpec<__enum_newtype_Add>>::from_spec(a) == Op::Add(a),
        <Op as vstd::std_specs::convert::FromSpec<__enum_newtype_Sub>>::from_spec(s) == Op::Sub(s),
        <Op as vstd::std_specs::convert::FromSpec<__enum_newtype_Mul>>::from_spec(m) == Op::Mul(m),
        <Op as vstd::std_specs::convert::FromSpec<__enum_newtype_Const>>::from_spec(c) == Op::Const(
            c,
        ),
{
}

} // verus!
