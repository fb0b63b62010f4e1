//! A small register/memory virtual processor whose primitive operations and
//! fetch-decode-execute loop are specified and proved with Verus.

pub mod arith;
pub mod processor;
pub mod engine;
pub mod laws;

pub use engine::{execute_instruction, execute_program, run, Flow, Instruction, Opcode};
pub use processor::{BinaryOp, Fault, ProcessingUnit, ProcessingUnitState, UnaryOp};
