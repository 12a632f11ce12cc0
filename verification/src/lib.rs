//! A stack-based bytecode virtual machine: it consumes a fixed
//! instruction stream and a read-only constant pool, executing
//! arithmetic against an operand stack, and reports malformed or
//! ill-typed programs as structured errors.

pub mod errors;
pub mod numerics;
pub mod semantics;
pub mod stream;
pub mod values;
pub mod virtual_machine;

pub use errors::{VirtualMachineError, VirtualMachineErrorKind};
pub use values::Value;
pub use virtual_machine::VirtualMachine;
