//! Runtime values of the Nexus interpreter and its built-in functions.

pub mod stdlib;

use crate::ast::{float_bits_eq, float_bits_equal};
use vstd::prelude::*;
use vstd::std_specs::cmp::PartialEqSpecImpl;

verus! {

/// A runtime value. A float is kept as the IEEE-754 bit pattern of its
/// `f64` value.
#[derive(Debug, Clone)]
pub enum Value {
    Int(i64),
    Float(u64),
    Bool(bool),
    String(String),
    Unit,
}

/// What `==` on values means: the same kind and equal contents, floats
/// compared as `f64`.
pub open spec fn value_eq(a: Value, b: Value) -> bool {
    match (a, b) {
        (Value::Int(x), Value::Int(y)) => x == y,
        (Value::Float(x), Value::Float(y)) => float_bits_eq(x, y),
        (Value::Bool(x), Value::Bool(y)) => x == y,
        (Value::String(x), Value::String(y)) => x@ == y@,
        (Value::Unit, Value::Unit) => true,
        _ => false,
    }
}

impl PartialEq for Value {
    fn eq(&self, other: &Self) -> (r: bool) {
        match (self, other) {
            (Value::Int(x), Value::Int(y)) => *x == *y,
            (Value::Float(x), Value::Float(y)) => float_bits_equal(*x, *y),
            (Value::Bool(x), Value::Bool(y)) => *x == *y,
            (Value::String(x), Value::String(y)) => *x == *y,
            (Value::Unit, Value::Unit) => true,
            _ => false,
        }
    }
}

impl PartialEqSpecImpl for Value {
    open spec fn obeys_eq_spec() -> bool {
        true
    }

    open spec fn eq_spec(&self, other: &Value) -> bool {
        value_eq(*self, *other)
    }
}

/// How evaluating an expression ended: normally, or through `return`.
#[derive(Debug, Clone, PartialEq)]
pub enum ExprResult {
    Normal(Value),
    EarlyReturn(Value),
}

/// The mathematical value of a [`Value`]: strings taken by their characters.
pub enum ValueModel {
    Int(i64),
    Float(u64),
    Bool(bool),
    String(Seq<char>),
    Unit,
}

impl Value {
    /// The model of this value.
    pub open spec fn model(&self) -> ValueModel {
        match self {
            Value::Int(i) => ValueModel::Int(*i),
            Value::Float(bits) => ValueModel::Float(*bits),
            Value::Bool(b) => ValueModel::Bool(*b),
            Value::String(s) => ValueModel::String(s@),
            Value::Unit => ValueModel::Unit,
        }
    }
}

/// The models of a sequence of values.
pub open spec fn value_models(vs: Seq<Value>) -> Seq<ValueModel> {
    vs.map_values(|v: Value| v.model())
}

/// Two values holding floats are equal exactly as `f64` values are: only
/// when they hold the same bits or both hold a zero (`0.0` equals `-0.0`),
/// never when one holds a NaN, and always when they hold the same bits of
/// a number.
pub proof fn lemma_float_values_equal_as_f64(a: u64, b: u64)
    ensures
        value_eq(Value::Float(a), Value::Float(b)) ==> a == b || ((a & 0x7fff_ffff_ffff_ffffu64) == 0 && (b
            & 0x7fff_ffff_ffff_ffffu64) == 0),
        (a & 0x7fff_ffff_ffff_ffffu64) == 0 && (b & 0x7fff_ffff_ffff_ffffu64) == 0 ==> value_eq(
            Value::Float(a),
            Value::Float(b),
        ),
        (a & 0x7ff0_0000_0000_0000u64) == 0x7ff0_0000_0000_0000u64 && (a & 0x000f_ffff_ffff_ffffu64)
            != 0 ==> !value_eq(Value::Float(a), Value::Float(b)),
        !((a & 0x7ff0_0000_0000_0000u64) == 0x7ff0_0000_0000_0000u64 && (a
            & 0x000f_ffff_ffff_ffffu64) != 0) ==> value_eq(Value::Float(a), Value::Float(a)),
{
    crate::ast::lemma_float_equality_is_bit_identity_up_to_zero_sign(a, b);
}

} // verus!
