//! The instruction-set interpreter of the Game Boy's processor.
//!
//! [`cpu::Cpu`] holds the registers and the memory. One step reads an opcode
//! at the program counter, decodes it into an [`instruction::Instruction`]
//! with its operands resolved, and executes that. What each of these does is
//! stated over plain values: [`cpu::Machine`] stands for the processor,
//! [`decode::decode`] says what an opcode means, [`execute::execute`] what an
//! instruction does and [`alu`] how the flags come about. The module
//! [`laws`] holds what follows for the processor as a whole.
pub mod alu;
pub mod bits;
pub mod cpu;
pub mod decode;
pub mod execute;
pub mod instruction;
pub mod laws;
pub mod mmu;
pub mod registers;
