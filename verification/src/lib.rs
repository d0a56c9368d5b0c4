//! A verified interpreter for the MOS 6502 8-bit processor.
//!
//! The library models the processor's architectural state -- accumulator,
//! index registers, stack pointer, program counter, packed status byte and
//! 64 KiB of flat RAM -- and executes machine code by repeatedly fetching,
//! decoding and executing instructions until a BRK opcode halts the run.
//!
//! Every instruction's effect is specified against a mathematical machine
//! model ([`model::Machine`]) and proved: [`cpu::CPU::interpret`] is shown to
//! implement the small-step function [`model::spec_step`], and the fetch loop
//! [`cpu::CPU::run`] is shown to reach its final state by a chain of such
//! steps.

pub mod cpu;
pub mod laws;
pub mod model;
pub mod opcodes;
pub mod status;

pub use cpu::CPU;
pub use cpu::StepHook;
pub use model::AddressingMode;
pub use model::Fault;
pub use opcodes::Opcode;
pub use status::Status;
