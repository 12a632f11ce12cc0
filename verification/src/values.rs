//! The runtime datum of the virtual machine and the opcode encoding.

use vstd::prelude::*;

verus! {

/// Opcode: read one operand byte (a constant-pool index) and push that
/// constant onto the operand stack.
pub const OP_CONSTANT: u8 = 0;

/// Opcode: pop two Numbers, push their sum.
pub const OP_ADD: u8 = 1;

/// Opcode: pop two Numbers, push left minus right.
pub const OP_SUBTRACT: u8 = 2;

/// Opcode: pop two Numbers, push their product.
pub const OP_MULTIPLY: u8 = 3;

/// Opcode: pop two Numbers, push left divided by right.
pub const OP_DIVIDE: u8 = 4;

/// Opcode: pop one Number, push its negation.
pub const OP_NEGATE: u8 = 5;

/// A tagged runtime value.
///
/// A `Number` carries the bit pattern of an IEEE-754 double-precision
/// float (as `f64::to_bits` would produce it), so that the machine's
/// decoding, stack discipline and error handling can be reasoned about
/// over plain integers; hosts convert at the boundary.
#[derive(Debug)]
pub enum Value {
    Number(u64),
    Text(String),
    Boolean(bool),
    Nil,
}

impl Value {
    /// Whether two values have the same variant and the same payload,
    /// texts compared by their characters.
    pub open spec fn eq_spec(&self, other: &Value) -> bool {
        match (self, other) {
            (Value::Number(a), Value::Number(b)) => a == b,
            (Value::Text(a), Value::Text(b)) => a@ == b@,
            (Value::Boolean(a), Value::Boolean(b)) => a == b,
            (Value::Nil, Value::Nil) => true,
            _ => false,
        }
    }
}

impl Clone for Value {
    fn clone(&self) -> (r: Value)
        ensures
            r == *self,
    {
        match self {
            Value::Number(n) => Value::Number(*n),
            Value::Text(s) => Value::Text(s.clone()),
            Value::Boolean(b) => Value::Boolean(*b),
            Value::Nil => Value::Nil,
        }
    }
}

impl PartialEq for Value {
    fn eq(&self, other: &Value) -> (r: bool) {
        match (self, other) {
            (Value::Number(a), Value::Number(b)) => *a == *b,
            (Value::Text(a), Value::Text(b)) => *a == *b,
            (Value::Boolean(a), Value::Boolean(b)) => *a == *b,
            (Value::Nil, Value::Nil) => true,
            _ => false,
        }
    }
}

impl vstd::std_specs::cmp::PartialEqSpecImpl for Value {
    open spec fn obeys_eq_spec() -> bool {
        true
    }

    open spec fn eq_spec(&self, other: &Value) -> bool {
        Value::eq_spec(self, other)
    }
}

} // verus!
