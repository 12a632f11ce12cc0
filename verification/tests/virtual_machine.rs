use bytes::Bytes;

use rlox::errors::VirtualMachineErrorKind;
use rlox::values::{Value, OP_ADD, OP_CONSTANT, OP_DIVIDE, OP_MULTIPLY, OP_NEGATE, OP_SUBTRACT};
use rlox::VirtualMachine;

fn number(x: f64) -> Value {
    Value::Number(x.to_bits())
}

fn number_of(value: Option<Value>) -> f64 {
    match value {
        Some(Value::Number(bits)) => f64::from_bits(bits),
        other => panic!("expected a Number on the stack, got {:?}", other),
    }
}

#[test]
fn smoke_test() {
    // Arrange
    let operations = Bytes::from_static(&[
        // 1. Load constant 0 onto stack
        OP_CONSTANT,
        0,
        // 2. Load constant 1 onto stack
        OP_CONSTANT,
        1,
        // 3. Add previous 2 stack items, put result on stack
        OP_ADD,
        // 4. Load constant 1 onto stack
        OP_CONSTANT,
        1,
        // 5. Multiply previous 2 stack items, put result on stack
        OP_MULTIPLY,
    ]);
    let constants = vec![number(1.0), number(2.0)];
    let mut vm = VirtualMachine::new(operations, constants);
    // Act
    vm.run().unwrap();
    // Assert
    assert_eq!(Some(number(6.0)), vm.pop_from_stack());
    assert_eq!(0, vm.stack_len());
}

#[test]
fn add_then_multiply_leaves_six() {
    let operations = Bytes::from_static(&[OP_CONSTANT, 0, OP_CONSTANT, 1, OP_ADD, OP_CONSTANT, 1,
        OP_MULTIPLY]);
    let mut vm = VirtualMachine::new(operations, vec![number(1.0), number(2.0)]);
    assert!(vm.run().is_ok());
    assert_eq!(1, vm.stack_len());
    assert_eq!((1.0f64 + 2.0) * 2.0, number_of(vm.pop_from_stack()));
}

#[test]
fn negate_leaves_negated_constant() {
    let operations = Bytes::from_static(&[OP_CONSTANT, 0, OP_NEGATE]);
    let mut vm = VirtualMachine::new(operations, vec![number(5.0)]);
    assert!(vm.run().is_ok());
    assert_eq!(1, vm.stack_len());
    assert_eq!(-5.0, number_of(vm.pop_from_stack()));
}

#[test]
fn constant_index_out_of_range_is_compilation_error() {
    let operations = Bytes::from_static(&[OP_CONSTANT, 5]);
    let mut vm = VirtualMachine::new(operations, vec![number(1.0)]);
    let error = vm.run().unwrap_err();
    assert_eq!(VirtualMachineErrorKind::Compilation, error.kind);
    assert_eq!("Constant index out of range: 5", error.message);
    assert_eq!(0, vm.stack_len());
}

#[test]
fn add_on_empty_stack_is_runtime_underflow() {
    let operations = Bytes::from_static(&[OP_ADD]);
    let mut vm = VirtualMachine::new(operations, vec![]);
    let error = vm.run().unwrap_err();
    assert_eq!(VirtualMachineErrorKind::Runtime, error.kind);
    assert_eq!("No value on the stack to pop", error.message);
    assert_eq!(0, vm.stack_len());
}

#[test]
fn divide_by_zero_follows_ieee_rules() {
    let operations = Bytes::from_static(&[OP_CONSTANT, 0, OP_CONSTANT, 1, OP_DIVIDE]);
    let mut vm = VirtualMachine::new(operations, vec![number(1.0), number(0.0)]);
    assert!(vm.run().is_ok());
    assert_eq!(1, vm.stack_len());
    assert_eq!(f64::INFINITY, number_of(vm.pop_from_stack()));
}

#[test]
fn undefined_opcode_is_compilation_error_naming_the_byte() {
    let operations = Bytes::from_static(&[255]);
    let mut vm = VirtualMachine::new(operations, vec![]);
    let error = vm.run().unwrap_err();
    assert_eq!(VirtualMachineErrorKind::Compilation, error.kind);
    assert_eq!("Received unknown opcode: 255", error.message);
    assert_eq!(0, vm.stack_len());
}

#[test]
fn two_digit_undefined_opcode_is_named_in_decimal() {
    let operations = Bytes::from_static(&[42]);
    let mut vm = VirtualMachine::new(operations, vec![]);
    let error = vm.run().unwrap_err();
    assert_eq!(VirtualMachineErrorKind::Compilation, error.kind);
    assert_eq!("Received unknown opcode: 42", error.message);
}

#[test]
fn one_digit_undefined_opcode_is_named_in_decimal() {
    let operations = Bytes::from_static(&[7]);
    let mut vm = VirtualMachine::new(operations, vec![]);
    let error = vm.run().unwrap_err();
    assert_eq!(VirtualMachineErrorKind::Compilation, error.kind);
    assert_eq!("Received unknown opcode: 7", error.message);
}

#[test]
fn constant_without_operand_byte_is_compilation_error() {
    let operations = Bytes::from_static(&[OP_CONSTANT]);
    let mut vm = VirtualMachine::new(operations, vec![number(1.0)]);
    let error = vm.run().unwrap_err();
    assert_eq!(VirtualMachineErrorKind::Compilation, error.kind);
    assert_eq!("OP_CONSTANT opcode should be two bytes long!", error.message);
    assert_eq!(0, vm.stack_len());
}

#[test]
fn subtract_is_left_minus_right() {
    let operations = Bytes::from_static(&[OP_CONSTANT, 0, OP_CONSTANT, 1, OP_SUBTRACT]);
    let mut vm = VirtualMachine::new(operations, vec![number(5.0), number(2.0)]);
    assert!(vm.run().is_ok());
    assert_eq!(3.0, number_of(vm.pop_from_stack()));
}

#[test]
fn subtract_swapped_operands_changes_the_sign() {
    let operations = Bytes::from_static(&[OP_CONSTANT, 1, OP_CONSTANT, 0, OP_SUBTRACT]);
    let mut vm = VirtualMachine::new(operations, vec![number(5.0), number(2.0)]);
    assert!(vm.run().is_ok());
    assert_eq!(-3.0, number_of(vm.pop_from_stack()));
}

#[test]
fn divide_is_left_over_right() {
    let operations = Bytes::from_static(&[OP_CONSTANT, 0, OP_CONSTANT, 1, OP_DIVIDE]);
    let mut vm = VirtualMachine::new(operations, vec![number(8.0), number(2.0)]);
    assert!(vm.run().is_ok());
    assert_eq!(4.0, number_of(vm.pop_from_stack()));
}

#[test]
fn divide_swapped_operands_inverts_the_quotient() {
    let operations = Bytes::from_static(&[OP_CONSTANT, 1, OP_CONSTANT, 0, OP_DIVIDE]);
    let mut vm = VirtualMachine::new(operations, vec![number(8.0), number(2.0)]);
    assert!(vm.run().is_ok());
    assert_eq!(0.25, number_of(vm.pop_from_stack()));
}

#[test]
fn multiply_computes_the_product() {
    let operations = Bytes::from_static(&[OP_CONSTANT, 0, OP_CONSTANT, 1, OP_MULTIPLY]);
    let mut vm = VirtualMachine::new(operations, vec![number(3.5), number(2.0)]);
    assert!(vm.run().is_ok());
    assert_eq!(7.0, number_of(vm.pop_from_stack()));
}

#[test]
fn binary_operator_with_one_operand_underflows() {
    let operations = Bytes::from_static(&[OP_CONSTANT, 0, OP_ADD]);
    let mut vm = VirtualMachine::new(operations, vec![number(1.0)]);
    let error = vm.run().unwrap_err();
    assert_eq!(VirtualMachineErrorKind::Runtime, error.kind);
    assert_eq!("No value on the stack to pop", error.message);
    assert_eq!(0, vm.stack_len());
}

#[test]
fn negate_on_empty_stack_is_runtime_underflow() {
    let operations = Bytes::from_static(&[OP_NEGATE]);
    let mut vm = VirtualMachine::new(operations, vec![]);
    let error = vm.run().unwrap_err();
    assert_eq!(VirtualMachineErrorKind::Runtime, error.kind);
    assert_eq!("No value on the stack to pop", error.message);
}

#[test]
fn adding_a_boolean_is_a_runtime_type_error() {
    let operations = Bytes::from_static(&[OP_CONSTANT, 0, OP_CONSTANT, 1, OP_ADD]);
    let mut vm = VirtualMachine::new(operations, vec![number(1.0), Value::Boolean(true)]);
    let error = vm.run().unwrap_err();
    assert_eq!(VirtualMachineErrorKind::Runtime, error.kind);
    assert_eq!("Expected a Number value", error.message);
    assert_eq!(0, vm.stack_len());
}

#[test]
fn negating_text_is_a_runtime_type_error() {
    let operations = Bytes::from_static(&[OP_CONSTANT, 0, OP_NEGATE]);
    let constants = vec![Value::Text(String::from("five"))];
    let mut vm = VirtualMachine::new(operations, constants);
    let error = vm.run().unwrap_err();
    assert_eq!(VirtualMachineErrorKind::Runtime, error.kind);
    assert_eq!("Expected a Number value", error.message);
    assert_eq!(0, vm.stack_len());
}

#[test]
fn repeated_runs_agree() {
    let program: &'static [u8] = &[OP_CONSTANT, 0, OP_CONSTANT, 1, OP_SUBTRACT, OP_NEGATE];
    let mut first = VirtualMachine::new(Bytes::from_static(program), vec![number(9.0),
        number(4.0)]);
    let mut second = VirtualMachine::new(Bytes::from_static(program), vec![number(9.0),
        number(4.0)]);
    assert!(first.run().is_ok());
    assert!(second.run().is_ok());
    assert_eq!(first.stack_len(), second.stack_len());
    assert_eq!(first.pop_from_stack(), second.pop_from_stack());
}

#[test]
fn empty_program_succeeds_with_empty_stack() {
    let operations = Bytes::from_static(&[]);
    let mut vm = VirtualMachine::new(operations, vec![number(1.0)]);
    assert!(vm.run().is_ok());
    assert_eq!(0, vm.stack_len());
    assert_eq!(None, vm.pop_from_stack());
}

#[test]
fn push_and_pop_are_last_in_first_out() {
    let operations = Bytes::from_static(&[]);
    let mut vm = VirtualMachine::new(operations, vec![]);
    vm.push_to_stack(number(1.0));
    vm.push_to_stack(Value::Nil);
    assert_eq!(2, vm.stack_len());
    assert_eq!(Some(Value::Nil), vm.pop_from_stack());
    assert_eq!(Some(number(1.0)), vm.pop_from_stack());
    assert_eq!(None, vm.pop_from_stack());
}

#[test]
fn values_compare_by_variant_and_payload() {
    assert_eq!(number(2.0), number(2.0));
    assert_ne!(number(2.0), number(3.0));
    assert_eq!(Value::Text(String::from("a")), Value::Text(String::from("a")));
    assert_ne!(Value::Text(String::from("a")), Value::Text(String::from("b")));
    assert_eq!(Value::Boolean(false), Value::Boolean(false));
    assert_ne!(Value::Boolean(false), Value::Boolean(true));
    assert_eq!(Value::Nil, Value::Nil);
    assert_ne!(Value::Nil, Value::Boolean(false));
    assert_ne!(number(0.0), Value::Nil);
    let cloned = Value::Text(String::from("text")).clone();
    assert_eq!(Value::Text(String::from("text")), cloned);
}

#[test]
fn negation_flips_only_the_sign_bit() {
    let operations = Bytes::from_static(&[OP_CONSTANT, 0, OP_NEGATE, OP_NEGATE]);
    let mut vm = VirtualMachine::new(operations, vec![number(1.5)]);
    assert!(vm.run().is_ok());
    assert_eq!(1.5, number_of(vm.pop_from_stack()));
}

#[test]
fn addition_rounds_like_hardware_doubles() {
    let operations = Bytes::from_static(&[OP_CONSTANT, 0, OP_CONSTANT, 1, OP_ADD]);
    let mut vm = VirtualMachine::new(operations, vec![number(0.1), number(0.2)]);
    assert!(vm.run().is_ok());
    assert_eq!(0.1f64 + 0.2f64, number_of(vm.pop_from_stack()));
}

#[test]
fn get_constant_returns_pool_entries_within_bounds_only() {
    let operations = Bytes::from_static(&[]);
    let vm = VirtualMachine::new(operations, vec![number(1.0), Value::Nil]);
    assert_eq!(Some(&number(1.0)), vm.get_constant(0));
    assert_eq!(Some(&Value::Nil), vm.get_constant(1));
    assert_eq!(None, vm.get_constant(2));
    assert_eq!(None, vm.get_constant(255));
}
