//! A simulator for the 32-bit RISC-V base integer instruction set: immediates,
//! instruction decoding, a machine state that executes decoded instructions,
//! and the run/pause/step/quit protocol that drives execution.

pub mod harness;
pub mod immediate;
pub mod instruction;
pub mod machine;
pub mod memory;
pub mod model;

pub use harness::{Action, Command, Harness, RunState, Stop};
pub use immediate::{transmute_to_signed, transmute_to_unsigned, BigImmediate, SmallImmediate};
pub use instruction::{interpret_bytes, Instruction, B, I, J, R, S, U};
pub use machine::ArchState;
pub use memory::Memory;
pub use model::Fault;
