//! The virtual machine: an instruction-stream cursor, an operand
//! stack, and a constant pool, driven by a fetch-decode-execute loop
//! proved to realise `run_model`.

use vstd::prelude::*;

use crate::errors::{append_decimal_u8, VirtualMachineError, VirtualMachineErrorKind};
use crate::numerics::{add_numbers, divide_numbers, multiply_numbers, negate_number,
    subtract_numbers};
use crate::semantics::{msg_constant_out_of_range, msg_not_a_number, msg_stack_underflow,
    msg_unknown_opcode, run_model};
use crate::stream::{stream_byte, stream_len, stream_of};
use crate::values::{Value, OP_ADD, OP_CONSTANT, OP_DIVIDE, OP_MULTIPLY, OP_NEGATE, OP_SUBTRACT};

verus! {

/// A single-use execution context: the instruction stream with its
/// read cursor, the operand stack, and the constant pool.
pub struct VirtualMachine {
    operations: bytes::Bytes,
    ip: usize,
    value_stack: Vec<Value>,
    constants: Vec<Value>,
}

impl VirtualMachine {
    /// The instruction byte sequence, fixed at construction.
    pub closed spec fn code(&self) -> Seq<u8> {
        stream_of(self.operations)
    }

    /// The position of the read cursor within the instruction stream.
    pub closed spec fn cursor(&self) -> int {
        self.ip as int
    }

    /// The instruction bytes not yet consumed by the cursor.
    pub open spec fn remaining_code(&self) -> Seq<u8> {
        self.code().skip(self.cursor())
    }

    /// The operand stack, bottom first.
    pub closed spec fn stack(&self) -> Seq<Value> {
        self.value_stack@
    }

    /// The constant pool, fixed at construction.
    pub closed spec fn pool(&self) -> Seq<Value> {
        self.constants@
    }

    /// Well-formedness: the cursor never leaves the instruction stream.
    pub open spec fn wf(&self) -> bool {
        0 <= self.cursor() <= self.code().len()
    }

    /// Builds a machine over the instruction bytes `operations` and the
    /// constant pool `constants`, with the cursor at the start and an
    /// empty operand stack.
    pub fn new(operations: bytes::Bytes, constants: Vec<Value>) -> (vm: VirtualMachine)
        ensures
            vm.wf(),
            vm.code() == stream_of(operations),
            vm.cursor() == 0,
            vm.stack() == Seq::<Value>::empty(),
            vm.pool() == constants@,
    {
        VirtualMachine { operations, ip: 0, value_stack: Vec::with_capacity(256), constants }
    }

    /// Runs the fetch-decode-execute loop to the end of the stream or
    /// to the first failure, exactly as `run_model` describes: on
    /// success the stream is exhausted; on failure the returned error
    /// carries the kind and message the model gives, and the stack is
    /// left as the failing instruction left it. The cursor only ever
    /// advances, so no byte once read is revisited.
    pub fn run(&mut self) -> (result: Result<(), VirtualMachineError>)
        requires
            old(self).wf(),
        ensures
            final(self).wf(),
            final(self).code() == old(self).code(),
            final(self).pool() == old(self).pool(),
            old(self).cursor() <= final(self).cursor(),
            ({
                let outcome = run_model(
                    old(self).remaining_code(),
                    old(self).pool(),
                    old(self).stack(),
                );
                &&& final(self).stack() == outcome.stack()
                &&& match result {
                    Ok(()) => outcome.is_success() && final(self).remaining_code().len() == 0,
                    Err(e) => !outcome.is_success() && e.kind == outcome.kind() && e.message@
                        == outcome.message(),
                }
            }),
    {
        let ghost outcome = run_model(self.remaining_code(), self.pool(), self.stack());
        let ghost code0 = self.code();
        let ghost pool0 = self.pool();
        let length = stream_len(&self.operations);
        while self.ip < length
            invariant
                self.wf(),
                self.code() == code0,
                self.pool() == pool0,
                length == code0.len(),
                run_model(self.remaining_code(), pool0, self.stack()) == outcome,
                code0 == old(self).code(),
                pool0 == old(self).pool(),
                old(self).cursor() <= self.cursor(),
                outcome == run_model(
                    old(self).remaining_code(),
                    old(self).pool(),
                    old(self).stack(),
                ),
            decreases length - self.ip,
        {
            let ghost rem = self.remaining_code();
            let ghost stk = self.stack();
            let opcode = stream_byte(&self.operations, self.ip);
            proof {
                assert(rem[0] == opcode);
                assert(rem.len() == length - self.ip);
            }
            self.ip = self.ip + 1;
            if opcode == OP_CONSTANT {
                if self.ip >= length {
                    proof {
                        assert(rem.len() < 2);
                    }
                    return Err(VirtualMachineError {
                        kind: VirtualMachineErrorKind::Compilation,
                        message: "OP_CONSTANT opcode should be two bytes long!".to_owned(),
                    });
                }
                let index = stream_byte(&self.operations, self.ip);
                proof {
                    assert(rem[1] == index);
                }
                self.ip = self.ip + 1;
                if (index as usize) < self.constants.len() {
                    let constant = self.constants[index as usize].clone();
                    self.value_stack.push(constant);
                    proof {
                        assert(self.remaining_code() =~= rem.skip(2));
                        assert(self.stack() == stk.push(pool0[index as int]));
                    }
                } else {
                    let mut message = "Constant index out of range: ".to_owned();
                    append_decimal_u8(&mut message, index);
                    proof {
                        assert(message@ == msg_constant_out_of_range(index));
                    }
                    return Err(VirtualMachineError {
                        kind: VirtualMachineErrorKind::Compilation,
                        message,
                    });
                }
            } else if opcode == OP_ADD || opcode == OP_SUBTRACT || opcode == OP_MULTIPLY || opcode
                == OP_DIVIDE {
                let right = match self.value_stack.pop() {
                    Some(value) => value,
                    None => {
                        return Err(Self::stack_underflow_error());
                    },
                };
                let left = match self.value_stack.pop() {
                    Some(value) => value,
                    None => {
                        proof {
                            assert(self.stack() =~= stk.drop_last());
                        }
                        return Err(Self::stack_underflow_error());
                    },
                };
                proof {
                    assert(stk.drop_last().last() == left);
                    assert(self.stack() =~= stk.drop_last().drop_last());
                }
                match (left, right) {
                    (Value::Number(left_bits), Value::Number(right_bits)) => {
                        let result_bits = if opcode == OP_ADD {
                            add_numbers(left_bits, right_bits)
                        } else if opcode == OP_SUBTRACT {
                            subtract_numbers(left_bits, right_bits)
                        } else if opcode == OP_MULTIPLY {
                            multiply_numbers(left_bits, right_bits)
                        } else {
                            divide_numbers(left_bits, right_bits)
                        };
                        self.value_stack.push(Value::Number(result_bits));
                        proof {
                            assert(self.remaining_code() =~= rem.skip(1));
                        }
                    },
                    _ => {
                        return Err(Self::not_a_number_error());
                    },
                }
            } else if opcode == OP_NEGATE {
                match self.value_stack.pop() {
                    Some(Value::Number(operand)) => {
                        let negated = negate_number(operand);
                        self.value_stack.push(Value::Number(negated));
                        proof {
                            assert(stk.last() == Value::Number(operand));
                            assert(self.stack() == stk.drop_last().push(
                                Value::Number(crate::numerics::negate_bits(operand)),
                            ));
                            assert(self.remaining_code() =~= rem.skip(1));
                        }
                    },
                    Some(_) => {
                        proof {
                            assert(self.stack() =~= stk.drop_last());
                        }
                        return Err(Self::not_a_number_error());
                    },
                    None => {
                        return Err(Self::stack_underflow_error());
                    },
                }
            } else {
                let mut message = "Received unknown opcode: ".to_owned();
                append_decimal_u8(&mut message, opcode);
                proof {
                    assert(message@ == msg_unknown_opcode(opcode));
                }
                return Err(VirtualMachineError {
                    kind: VirtualMachineErrorKind::Compilation,
                    message,
                });
            }
        }
        proof {
            assert(self.remaining_code().len() == 0);
        }
        Ok(())
    }

    /// Appends `value` to the top of the operand stack; never fails.
    pub fn push_to_stack(&mut self, value: Value)
        ensures
            final(self).stack() == old(self).stack().push(value),
            final(self).code() == old(self).code(),
            final(self).pool() == old(self).pool(),
            final(self).cursor() == old(self).cursor(),
            final(self).wf() == old(self).wf(),
    {
        self.value_stack.push(value);
    }

    /// Removes and returns the top of the operand stack, or `None` if
    /// the stack is empty.
    pub fn pop_from_stack(&mut self) -> (popped: Option<Value>)
        ensures
            final(self).code() == old(self).code(),
            final(self).pool() == old(self).pool(),
            final(self).cursor() == old(self).cursor(),
            final(self).wf() == old(self).wf(),
            old(self).stack().len() == 0 ==> popped is None
                && final(self).stack() == old(self).stack(),
            old(self).stack().len() > 0 ==> popped == Some(old(self).stack().last())
                && final(self).stack() == old(self).stack().drop_last(),
    {
        let popped = self.value_stack.pop();
        proof {
            if old(self).stack().len() > 0 {
                assert(self.stack() =~= old(self).stack().drop_last());
            }
        }
        popped
    }

    /// Returns the constant-pool entry at `index` if and only if
    /// `index` is within the pool's bounds: a passive accessor that
    /// signals an out-of-range index to the caller instead of failing.
    pub fn get_constant(&self, index: u8) -> (entry: Option<&Value>)
        ensures
            match entry {
                Some(value) => (index as int) < self.pool().len() && *value == self.pool()[index as int],
                None => (index as int) >= self.pool().len(),
            },
    {
        if (index as usize) < self.constants.len() {
            Some(&self.constants[index as usize])
        } else {
            None
        }
    }

    /// The number of values on the operand stack.
    pub fn stack_len(&self) -> (n: usize)
        ensures
            n == self.stack().len(),
    {
        self.value_stack.len()
    }

    /// A Runtime-kind error for an operator that found too few operands.
    fn stack_underflow_error() -> (e: VirtualMachineError)
        ensures
            e.kind == VirtualMachineErrorKind::Runtime,
            e.message@ == msg_stack_underflow(),
    {
        VirtualMachineError {
            kind: VirtualMachineErrorKind::Runtime,
            message: "No value on the stack to pop".to_owned(),
        }
    }

    /// A Runtime-kind error for an operand that is not a Number.
    fn not_a_number_error() -> (e: VirtualMachineError)
        ensures
            e.kind == VirtualMachineErrorKind::Runtime,
            e.message@ == msg_not_a_number(),
    {
        VirtualMachineError {
            kind: VirtualMachineErrorKind::Runtime,
            message: "Expected a Number value".to_owned(),
        }
    }
}

} // verus!
