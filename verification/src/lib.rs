//! A register-based bytecode machine: thirty-two signed 32-bit registers, a
//! program counter, a remainder register and an equality flag, driven by a
//! flat byte program.
//!
//! [`instruction`] defines the instruction set, [`arith`] the integer
//! arithmetic the instructions rely on, [`machine`] the mathematical model of
//! the machine and of one execution step, [`vm`] the executable engine, and
//! [`laws`] the properties that follow from the model.

pub mod arith;
pub mod instruction;
pub mod laws;
pub mod machine;
pub mod vm;
