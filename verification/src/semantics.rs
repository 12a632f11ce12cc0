//! The mathematical model of execution: what running an instruction
//! stream against a constant pool and a starting operand stack yields.
//!
//! `VirtualMachine::run` is proved to realise `run_model` exactly, so
//! the laws stated here about the model hold of every execution.

use vstd::prelude::*;

use crate::errors::{decimal_rep, VirtualMachineErrorKind};
use crate::numerics::{add_bits, div_bits, mul_bits, negate_bits, sub_bits};
use crate::values::{Value, OP_ADD, OP_CONSTANT, OP_DIVIDE, OP_MULTIPLY, OP_NEGATE, OP_SUBTRACT};

verus! {

/// The message reported when a CONSTANT opcode ends the stream with no
/// operand byte after it.
pub open spec fn msg_missing_operand() -> Seq<char> {
    "OP_CONSTANT opcode should be two bytes long!"@
}

/// The message reported when a CONSTANT operand byte is not a valid
/// index into the constant pool; it names the offending index.
pub open spec fn msg_constant_out_of_range(index: u8) -> Seq<char> {
    "Constant index out of range: "@ + decimal_rep(index as nat)
}

/// The message reported when an operator finds too few operands.
pub open spec fn msg_stack_underflow() -> Seq<char> {
    "No value on the stack to pop"@
}

/// The message reported when an operand is not a Number.
pub open spec fn msg_not_a_number() -> Seq<char> {
    "Expected a Number value"@
}

/// The message reported for a byte outside the opcode set; it names the
/// offending byte.
pub open spec fn msg_unknown_opcode(opcode: u8) -> Seq<char> {
    "Received unknown opcode: "@ + decimal_rep(opcode as nat)
}

/// What a run yields: on success the final operand stack; on failure
/// the error kind, the error message, and the residual operand stack.
pub ghost enum Outcome {
    Success { stack: Seq<Value> },
    Failure { kind: VirtualMachineErrorKind, message: Seq<char>, stack: Seq<Value> },
}

impl Outcome {
    /// Whether the run completed without an error.
    pub open spec fn is_success(self) -> bool {
        self matches Outcome::Success { .. }
    }

    /// The final (on success) or residual (on failure) operand stack.
    pub open spec fn stack(self) -> Seq<Value> {
        match self {
            Outcome::Success { stack } => stack,
            Outcome::Failure { stack, .. } => stack,
        }
    }

    /// The kind of the error of a failed run.
    pub open spec fn kind(self) -> VirtualMachineErrorKind
        recommends
            !self.is_success(),
    {
        match self {
            Outcome::Success { .. } => VirtualMachineErrorKind::Runtime,
            Outcome::Failure { kind, .. } => kind,
        }
    }

    /// The message of the error of a failed run.
    pub open spec fn message(self) -> Seq<char>
        recommends
            !self.is_success(),
    {
        match self {
            Outcome::Success { .. } => Seq::empty(),
            Outcome::Failure { message, .. } => message,
        }
    }
}

/// Whether `opcode` is one of the four binary arithmetic operators.
pub open spec fn is_binary_op(opcode: u8) -> bool {
    opcode == OP_ADD || opcode == OP_SUBTRACT || opcode == OP_MULTIPLY || opcode == OP_DIVIDE
}

/// The bit pattern a binary operator computes from its left and right
/// operand patterns.
pub open spec fn binary_op_bits(opcode: u8, left: u64, right: u64) -> u64
    recommends
        is_binary_op(opcode),
{
    if opcode == OP_ADD {
        add_bits(left, right)
    } else if opcode == OP_SUBTRACT {
        sub_bits(left, right)
    } else if opcode == OP_MULTIPLY {
        mul_bits(left, right)
    } else {
        div_bits(left, right)
    }
}

/// The outcome of executing `code` left to right against the constant
/// pool `pool`, starting from the operand stack `stack`.
///
/// Operands are popped right first (it was pushed last), then left;
/// the first failure ends the run, leaving the stack as the failing
/// instruction left it.
pub open spec fn run_model(code: Seq<u8>, pool: Seq<Value>, stack: Seq<Value>) -> Outcome
    decreases code.len(),
{
    if code.len() == 0 {
        Outcome::Success { stack }
    } else {
        let opcode = code[0];
        if opcode == OP_CONSTANT {
            if code.len() < 2 {
                Outcome::Failure {
                    kind: VirtualMachineErrorKind::Compilation,
                    message: msg_missing_operand(),
                    stack,
                }
            } else if pool.len() <= code[1] as int {
                Outcome::Failure {
                    kind: VirtualMachineErrorKind::Compilation,
                    message: msg_constant_out_of_range(code[1]),
                    stack,
                }
            } else {
                run_model(code.skip(2), pool, stack.push(pool[code[1] as int]))
            }
        } else if is_binary_op(opcode) {
            if stack.len() == 0 {
                Outcome::Failure {
                    kind: VirtualMachineErrorKind::Runtime,
                    message: msg_stack_underflow(),
                    stack,
                }
            } else if stack.len() == 1 {
                Outcome::Failure {
                    kind: VirtualMachineErrorKind::Runtime,
                    message: msg_stack_underflow(),
                    stack: stack.drop_last(),
                }
            } else {
                match (stack.drop_last().last(), stack.last()) {
                    (Value::Number(left), Value::Number(right)) => run_model(
                        code.skip(1),
                        pool,
                        stack.drop_last().drop_last().push(
                            Value::Number(binary_op_bits(opcode, left, right)),
                        ),
                    ),
                    _ => Outcome::Failure {
                        kind: VirtualMachineErrorKind::Runtime,
                        message: msg_not_a_number(),
                        stack: stack.drop_last().drop_last(),
                    },
                }
            }
        } else if opcode == OP_NEGATE {
            if stack.len() == 0 {
                Outcome::Failure {
                    kind: VirtualMachineErrorKind::Runtime,
                    message: msg_stack_underflow(),
                    stack,
                }
            } else {
                match stack.last() {
                    Value::Number(operand) => run_model(
                        code.skip(1),
                        pool,
                        stack.drop_last().push(Value::Number(negate_bits(operand))),
                    ),
                    _ => Outcome::Failure {
                        kind: VirtualMachineErrorKind::Runtime,
                        message: msg_not_a_number(),
                        stack: stack.drop_last(),
                    },
                }
            }
        } else {
            Outcome::Failure {
                kind: VirtualMachineErrorKind::Compilation,
                message: msg_unknown_opcode(opcode),
                stack,
            }
        }
    }
}

/// Determinism: the outcome of a run is a function of the instruction
/// stream, the constant pool, and the starting stack alone, so two runs
/// over equal inputs have equal outcomes. `VirtualMachine::run` ties
/// every execution to this model.
pub proof fn lemma_run_deterministic(
    code1: Seq<u8>,
    pool1: Seq<Value>,
    stack1: Seq<Value>,
    code2: Seq<u8>,
    pool2: Seq<Value>,
    stack2: Seq<Value>,
)
    requires
        code1 == code2,
        pool1 == pool2,
        stack1 == stack2,
    ensures
        run_model(code1, pool1, stack1) == run_model(code2, pool2, stack2),
{
}

/// Stack discipline of CONSTANT: with a valid index, exactly one
/// element is added and none removed, and the element added is the pool
/// entry at that index; execution continues with the rest of the stream.
pub proof fn lemma_constant_stack_discipline(
    index: u8,
    rest: Seq<u8>,
    pool: Seq<Value>,
    stack: Seq<Value>,
)
    requires
        (index as int) < pool.len(),
    ensures
        run_model(seq![OP_CONSTANT, index] + rest, pool, stack) == run_model(
            rest,
            pool,
            stack.push(pool[index as int]),
        ),
        stack.push(pool[index as int]).len() == stack.len() + 1,
        forall|i: int| 0 <= i < stack.len() ==> stack.push(pool[index as int])[i] == stack[i],
{
    let code = seq![OP_CONSTANT, index] + rest;
    assert(code[0] == OP_CONSTANT);
    assert(code[1] == index);
    assert(code.skip(2) =~= rest);
}

/// Stack discipline of the binary operators: with two Numbers on top,
/// exactly two elements are removed and exactly one is added, the
/// elements beneath are untouched, and execution continues with the
/// rest of the stream.
pub proof fn lemma_binary_stack_discipline(
    opcode: u8,
    rest: Seq<u8>,
    pool: Seq<Value>,
    stack: Seq<Value>,
    left: u64,
    right: u64,
)
    requires
        is_binary_op(opcode),
        stack.len() >= 2,
        stack[stack.len() - 2] == Value::Number(left),
        stack[stack.len() - 1] == Value::Number(right),
    ensures
        run_model(seq![opcode] + rest, pool, stack) == run_model(
            rest,
            pool,
            stack.take(stack.len() - 2).push(Value::Number(binary_op_bits(opcode, left, right))),
        ),
        stack.take(stack.len() - 2).push(
            Value::Number(binary_op_bits(opcode, left, right)),
        ).len() == stack.len() - 1,
        forall|i: int|
            0 <= i < stack.len() - 2 ==> stack.take(stack.len() - 2).push(
                Value::Number(binary_op_bits(opcode, left, right)),
            )[i] == stack[i],
{
    let code = seq![opcode] + rest;
    assert(code[0] == opcode);
    assert(code.skip(1) =~= rest);
    assert(stack.drop_last().last() == Value::Number(left));
    assert(stack.drop_last().drop_last() =~= stack.take(stack.len() - 2));
}

/// Stack discipline of NEGATE: with a Number on top, exactly one
/// element is removed and exactly one is added, the elements beneath
/// are untouched, and execution continues with the rest of the stream.
pub proof fn lemma_negate_stack_discipline(
    rest: Seq<u8>,
    pool: Seq<Value>,
    stack: Seq<Value>,
    operand: u64,
)
    requires
        stack.len() >= 1,
        stack[stack.len() - 1] == Value::Number(operand),
    ensures
        run_model(seq![OP_NEGATE] + rest, pool, stack) == run_model(
            rest,
            pool,
            stack.drop_last().push(Value::Number(negate_bits(operand))),
        ),
        stack.drop_last().push(Value::Number(negate_bits(operand))).len() == stack.len(),
        forall|i: int|
            0 <= i < stack.len() - 1 ==> stack.drop_last().push(
                Value::Number(negate_bits(operand)),
            )[i] == stack[i],
{
    let code = seq![OP_NEGATE] + rest;
    assert(code[0] == OP_NEGATE);
    assert(code.skip(1) =~= rest);
}

/// Operand order: of two pushed Numbers, the one pushed first is the
/// left operand and the one pushed last is the right operand, for every
/// binary operator; swapping the push order swaps the operands. The
/// resulting non-commutativity of SUBTRACT and DIVIDE on concrete
/// doubles is exercised by tests.
pub proof fn lemma_operand_order(opcode: u8, pool: Seq<Value>, first: u64, second: u64)
    requires
        is_binary_op(opcode),
    ensures
        run_model(seq![opcode], pool, seq![Value::Number(first), Value::Number(second)]) == (
        Outcome::Success { stack: seq![Value::Number(binary_op_bits(opcode, first, second))] }),
        run_model(seq![opcode], pool, seq![Value::Number(second), Value::Number(first)]) == (
        Outcome::Success { stack: seq![Value::Number(binary_op_bits(opcode, second, first))] }),
{
    lemma_one_binary_op(opcode, pool, first, second);
    lemma_one_binary_op(opcode, pool, second, first);
}

/// Running a single binary operator against exactly the two Numbers
/// `first` (pushed first, the left operand) and `second` (pushed last,
/// the right operand) succeeds and leaves exactly the operator's result.
pub proof fn lemma_one_binary_op(opcode: u8, pool: Seq<Value>, first: u64, second: u64)
    requires
        is_binary_op(opcode),
    ensures
        run_model(seq![opcode], pool, seq![Value::Number(first), Value::Number(second)]) == (
        Outcome::Success { stack: seq![Value::Number(binary_op_bits(opcode, first, second))] }),
{
    let stack = seq![Value::Number(first), Value::Number(second)];
    let code = seq![opcode];
    assert(code[0] == opcode);
    assert(stack.last() == Value::Number(second));
    assert(stack.drop_last().last() == Value::Number(first));
    let pushed = stack.drop_last().drop_last().push(
        Value::Number(binary_op_bits(opcode, first, second)),
    );
    assert(pushed =~= seq![Value::Number(binary_op_bits(opcode, first, second))]);
    assert(code.skip(1).len() == 0);
    assert(run_model(code.skip(1), pool, pushed) == (Outcome::Success { stack: pushed }));
}

/// Bounds checking: a CONSTANT instruction whose index is not below the
/// pool length fails at once with a Compilation-kind error naming the
/// index, and pushes nothing: the stack is left unchanged.
pub proof fn lemma_constant_index_out_of_range(
    index: u8,
    rest: Seq<u8>,
    pool: Seq<Value>,
    stack: Seq<Value>,
)
    requires
        pool.len() <= index as int,
    ensures
        run_model(seq![OP_CONSTANT, index] + rest, pool, stack) == (Outcome::Failure {
            kind: VirtualMachineErrorKind::Compilation,
            message: msg_constant_out_of_range(index),
            stack,
        }),
{
    let code = seq![OP_CONSTANT, index] + rest;
    assert(code[0] == OP_CONSTANT);
    assert(code[1] == index);
}

/// A CONSTANT opcode that ends the stream fails with a Compilation-kind
/// error: its operand byte is missing. The stack is left unchanged.
pub proof fn lemma_constant_missing_operand(pool: Seq<Value>, stack: Seq<Value>)
    ensures
        run_model(seq![OP_CONSTANT], pool, stack) == (Outcome::Failure {
            kind: VirtualMachineErrorKind::Compilation,
            message: msg_missing_operand(),
            stack,
        }),
{
    let code = seq![OP_CONSTANT];
    assert(code[0] == OP_CONSTANT);
}

/// Underflow checking: any operator executed against a stack with fewer
/// elements than it requires fails with a Runtime-kind error and leaves
/// the residual stack empty, never proceeding with missing operands.
pub proof fn lemma_stack_underflow(opcode: u8, rest: Seq<u8>, pool: Seq<Value>, stack: Seq<Value>)
    requires
        (is_binary_op(opcode) && stack.len() < 2) || (opcode == OP_NEGATE && stack.len() < 1),
    ensures
        !run_model(seq![opcode] + rest, pool, stack).is_success(),
        run_model(seq![opcode] + rest, pool, stack).kind() == VirtualMachineErrorKind::Runtime,
        run_model(seq![opcode] + rest, pool, stack).message() == msg_stack_underflow(),
        run_model(seq![opcode] + rest, pool, stack).stack().len() == 0,
{
    let code = seq![opcode] + rest;
    assert(code[0] == opcode);
}

/// Type checking for the binary operators: if either of the two popped
/// operands is not a Number, the run fails with a Runtime-kind error;
/// no coercion is attempted. Both operands have been consumed.
pub proof fn lemma_type_mismatch_binary(
    opcode: u8,
    rest: Seq<u8>,
    pool: Seq<Value>,
    stack: Seq<Value>,
)
    requires
        is_binary_op(opcode),
        stack.len() >= 2,
        !(stack[stack.len() - 2] is Number) || !(stack[stack.len() - 1] is Number),
    ensures
        run_model(seq![opcode] + rest, pool, stack) == (Outcome::Failure {
            kind: VirtualMachineErrorKind::Runtime,
            message: msg_not_a_number(),
            stack: stack.take(stack.len() - 2),
        }),
{
    let code = seq![opcode] + rest;
    assert(code[0] == opcode);
    assert(stack.drop_last().drop_last() =~= stack.take(stack.len() - 2));
}

/// Type checking for NEGATE: a non-Number operand fails with a
/// Runtime-kind error; no coercion is attempted. The operand has been
/// consumed.
pub proof fn lemma_type_mismatch_negate(rest: Seq<u8>, pool: Seq<Value>, stack: Seq<Value>)
    requires
        stack.len() >= 1,
        !(stack[stack.len() - 1] is Number),
    ensures
        run_model(seq![OP_NEGATE] + rest, pool, stack) == (Outcome::Failure {
            kind: VirtualMachineErrorKind::Runtime,
            message: msg_not_a_number(),
            stack: stack.drop_last(),
        }),
{
    let code = seq![OP_NEGATE] + rest;
    assert(code[0] == OP_NEGATE);
}

/// A byte outside the defined opcode set fails at once with a
/// Compilation-kind error naming the byte; the stack is left unchanged.
pub proof fn lemma_unknown_opcode(opcode: u8, rest: Seq<u8>, pool: Seq<Value>, stack: Seq<Value>)
    requires
        opcode > OP_NEGATE,
    ensures
        run_model(seq![opcode] + rest, pool, stack) == (Outcome::Failure {
            kind: VirtualMachineErrorKind::Compilation,
            message: msg_unknown_opcode(opcode),
            stack,
        }),
{
    let code = seq![opcode] + rest;
    assert(code[0] == opcode);
}

} // verus!
