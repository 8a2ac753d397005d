//! The processor: registers and memory, the instruction stream, the stack and
//! the fetch-decode-execute step.
use vstd::prelude::*;
use crate::bits::{high_byte, low_byte, lower, make_word, upper, word, wrap16};
use crate::decode::{decode, decode_prefixed, starts_instruction, CpuError, Decoded, PREFIX};
use crate::execute::execute;
use crate::instruction::Instruction;
use crate::mmu::{Mmu, MEMORY_SIZE};
use crate::registers::{RegisterFile, Registers};

verus! {

/// The state of the processor as a plain value: what [`Cpu`] stands for in
/// contracts.
pub struct Machine {
    pub regs: RegisterFile,
    pub mem: Seq<u8>,
}

impl Machine {
    /// Every 16-bit address has a byte behind it.
    pub open spec fn wf(self) -> bool {
        self.mem.len() == MEMORY_SIZE
    }

    /// The byte stored at `address`.
    pub open spec fn read(self, address: u16) -> u8 {
        self.mem[address as int]
    }

    /// This state with `value` stored at `address`.
    pub open spec fn write(self, address: u16, value: u8) -> Machine {
        Machine { mem: self.mem.update(address as int, value), ..self }
    }

    /// This state with the registers replaced.
    pub open spec fn with_regs(self, regs: RegisterFile) -> Machine {
        Machine { regs, ..self }
    }

    /// The byte of the instruction stream `offset` places past the program
    /// counter.
    pub open spec fn stream_byte(self, offset: int) -> u8 {
        self.read(wrap16(self.regs.pc + offset))
    }

    /// The word at the program counter, low byte first.
    pub open spec fn stream_word(self) -> u16 {
        word(self.stream_byte(1), self.stream_byte(0))
    }

    /// This state with the program counter moved by `count` bytes, wrapping
    /// at the ends of the address space.
    #[verifier::opaque]
    pub open spec fn skip(self, count: int) -> Machine {
        self.with_regs(self.regs.advance_pc(count))
    }

    /// This state with the program counter set to `address`.
    pub open spec fn jump(self, address: u16) -> Machine {
        self.with_regs(RegisterFile { pc: address, ..self.regs })
    }

    /// This state after pushing `value`: the stack pointer is two lower, the
    /// high byte of `value` lies just below the old stack pointer and the low
    /// byte below that.
    pub open spec fn push(self, value: u16) -> Machine {
        let high_at = wrap16(self.regs.sp - 1);
        let low_at = wrap16(self.regs.sp - 2);
        Machine {
            regs: RegisterFile { sp: low_at, ..self.regs },
            mem: self.mem.update(high_at as int, high_byte(value)).update(
                low_at as int,
                low_byte(value),
            ),
        }
    }

    /// The word on top of the stack: low byte at the stack pointer, high byte
    /// above it.
    pub open spec fn stack_top(self) -> u16 {
        word(self.read(wrap16(self.regs.sp + 1)), self.read(self.regs.sp))
    }

    /// This state with the top word taken off the stack: the stack pointer
    /// is two higher.
    pub open spec fn drop_top(self) -> Machine {
        self.with_regs(RegisterFile { sp: wrap16(self.regs.sp + 2), ..self.regs })
    }

    /// This state after a call to `address`: the program counter is pushed,
    /// then set to `address`.
    pub open spec fn call(self, address: u16) -> Machine {
        self.push(self.regs.pc).jump(address)
    }

    /// This state after a return: the top of the stack is taken off and
    /// becomes the program counter.
    pub open spec fn ret(self) -> Machine {
        self.drop_top().jump(self.stack_top())
    }
}

/// The instruction at the program counter of `m`, with its operands, and the
/// state after it was read; or nothing, where the opcode there has no
/// instruction behind it.
pub open spec fn fetch(m: Machine) -> Option<Decoded> {
    let opcode = m.stream_byte(0);
    if opcode == PREFIX {
        Some(Decoded { instruction: decode_prefixed(m.stream_byte(1)), machine: m.skip(2) })
    } else {
        decode(m.skip(1), opcode)
    }
}

/// The state after the instruction at the program counter of `m` was read
/// and executed; or nothing, where the opcode there has no instruction
/// behind it.
pub open spec fn step(m: Machine) -> Option<Machine> {
    match fetch(m) {
        Some(decoded) => Some(execute(decoded.machine, decoded.instruction)),
        None => None,
    }
}

/// The last address of the page in which [`Cpu::run`] keeps running.
pub const RUN_PAGE_END: u16 = 255;

/// How a run ended.
pub struct Run {
    /// The state it left.
    pub machine: Machine,
    /// The number of instructions it executed.
    pub steps: nat,
    /// The opcode it stopped at, if it stopped because that opcode has no
    /// instruction behind it.
    pub stopped_at: Option<u8>,
}

/// A run of at most `limit` instructions from state `m`.
///
/// It ends before the first opcode without an instruction, after the first
/// instruction that leaves the program counter beyond [`RUN_PAGE_END`], or
/// when `limit` instructions were executed, whichever comes first.
pub open spec fn run(m: Machine, limit: nat) -> Run
    decreases limit,
{
    if limit == 0 {
        Run { machine: m, steps: 0, stopped_at: None }
    } else {
        match step(m) {
            None => Run { machine: m, steps: 0, stopped_at: Some(m.stream_byte(0)) },
            Some(next) => if next.regs.pc > RUN_PAGE_END {
                Run { machine: next, steps: 1, stopped_at: None }
            } else {
                let rest = run(next, (limit - 1) as nat);
                Run { steps: rest.steps + 1, ..rest }
            },
        }
    }
}

/// The processor together with the memory it is attached to.
pub struct Cpu {
    pub registers: Registers,
    pub mmu: Mmu,
}

impl View for Cpu {
    type V = Machine;

    open spec fn view(&self) -> Machine {
        Machine { regs: self.registers@, mem: self.mmu@ }
    }
}

impl Cpu {
    /// A processor with all registers zero, attached to a memory of zeros.
    pub fn new() -> (cpu: Cpu)
        ensures
            cpu@.wf(),
            cpu@.regs == RegisterFile::zero(),
            forall|address: int| 0 <= address < MEMORY_SIZE ==> cpu@.mem[address] == 0,
    {
        Cpu { registers: Registers::new(), mmu: Mmu::new() }
    }

    /// The memory of a processor covers the whole address space.
    pub proof fn lemma_wf(&self)
        ensures
            self@.wf(),
    {
        self.mmu.lemma_len();
    }

    /// Executes instructions until one leaves the program counter beyond
    /// [`RUN_PAGE_END`], an opcode without an instruction is met, or `limit`
    /// instructions were executed. Returns how many were executed.
    pub fn run(&mut self, limit: u64) -> (result: Result<u64, CpuError>)
        ensures
            final(self)@ == run(old(self)@, limit as nat).machine,
            match result {
                Ok(steps) => {
                    &&& run(old(self)@, limit as nat).stopped_at is None
                    &&& steps == run(old(self)@, limit as nat).steps
                },
                Err(error) => run(old(self)@, limit as nat).stopped_at matches Some(opcode)
                    && error == CpuError::UnimplementedOpcode(opcode),
            },
    {
        let mut steps: u64 = 0;
        while steps < limit
            invariant
                steps <= limit,
                run(old(self)@, limit as nat) == (Run {
                    steps: run(self@, (limit - steps) as nat).steps + steps as nat,
                    ..run(self@, (limit - steps) as nat)
                }),
            decreases limit - steps,
        {
            match self.step() {
                Err(error) => {
                    return Err(error);
                },
                Ok(()) => {
                    steps = steps + 1;
                    if self.registers.get_pc() > RUN_PAGE_END {
                        return Ok(steps);
                    }
                },
            }
        }
        Ok(steps)
    }

    /// Reads the instruction at the program counter and executes it.
    ///
    /// Where the opcode there has no instruction behind it, nothing is
    /// changed and the opcode is reported.
    pub fn step(&mut self) -> (result: Result<(), CpuError>)
        ensures
            match result {
                Ok(()) => step(old(self)@) == Some(final(self)@),
                Err(error) => {
                    &&& step(old(self)@) is None
                    &&& error == CpuError::UnimplementedOpcode(old(self)@.stream_byte(0))
                    &&& final(self)@ == old(self)@
                },
            },
            result is Ok <==> starts_instruction(old(self)@.stream_byte(0)),
    {
        match self.fetch() {
            Ok(instruction) => {
                self.execute_instruction(instruction);
                Ok(())
            },
            Err(error) => Err(error),
        }
    }

    /// Reads the instruction at the program counter: the opcode, a second
    /// one if the first is the prefix, and the operands.
    ///
    /// Where the opcode has no instruction behind it, nothing is changed
    /// and the opcode is reported.
    pub fn fetch(&mut self) -> (result: Result<Instruction, CpuError>)
        ensures
            match result {
                Ok(instruction) => fetch(old(self)@) == Some(
                    Decoded { instruction, machine: final(self)@ },
                ),
                Err(error) => {
                    &&& fetch(old(self)@) is None
                    &&& error == CpuError::UnimplementedOpcode(old(self)@.stream_byte(0))
                    &&& final(self)@ == old(self)@
                },
            },
            result is Ok <==> starts_instruction(old(self)@.stream_byte(0)),
            result matches Ok(instruction) ==> instruction.well_formed(),
    {
        proof {
            reveal(wrap16);
            reveal(Machine::skip);
        }
        let start: u16 = self.registers.get_pc();
        let opcode: u8 = self.next_byte();
        if opcode == PREFIX {
            let prefixed_opcode: u8 = self.next_byte();
            Ok(self.decode_prefixed_opcode(prefixed_opcode))
        } else {
            match self.decode_opcode(opcode) {
                Ok(instruction) => Ok(instruction),
                Err(error) => {
                    self.registers.set_pc(start);
                    Err(error)
                },
            }
        }
    }

    /// Reads the byte at the program counter and moves past it.
    pub fn next_byte(&mut self) -> (byte: u8)
        ensures
            byte == old(self)@.stream_byte(0),
            final(self)@ == old(self)@.skip(1),
            final(self)@.regs == old(self)@.regs.advance_pc(1),
            final(self)@.mem == old(self)@.mem,
    {
        proof {
            reveal(wrap16);
            reveal(Machine::skip);
        }
        let address: u16 = self.registers.get_and_increment_pc();
        self.mmu.read_byte(address)
    }

    /// Reads the word at the program counter, low byte first, and moves past
    /// it.
    pub fn next_word(&mut self) -> (value: u16)
        ensures
            value == old(self)@.stream_word(),
            final(self)@ == old(self)@.skip(2),
            final(self)@.regs == old(self)@.regs.advance_pc(2),
            final(self)@.mem == old(self)@.mem,
    {
        proof {
            reveal(wrap16);
            reveal(Machine::skip);
        }
        let lsb: u8 = self.next_byte();
        let msb: u8 = self.next_byte();
        make_word(msb, lsb)
    }

    /// Pushes `value` on the stack, high byte first.
    pub fn push(&mut self, value: u16)
        ensures
            final(self)@ == old(self)@.push(value),
    {
        proof {
            reveal(wrap16);
        }
        let lsb: u8 = lower(value);
        let msb: u8 = upper(value);

        self.registers.decrement_sp();
        self.mmu.write_byte(self.registers.get_sp(), msb);
        self.registers.decrement_sp();
        self.mmu.write_byte(self.registers.get_sp(), lsb);
    }

    /// Takes the top word off the stack, low byte first.
    pub fn pop(&mut self) -> (value: u16)
        ensures
            value == old(self)@.stack_top(),
            final(self)@ == old(self)@.drop_top(),
    {
        proof {
            reveal(wrap16);
        }
        let lsb: u8 = self.mmu.read_byte(self.registers.get_sp());
        self.registers.increment_sp();
        let msb: u8 = self.mmu.read_byte(self.registers.get_sp());
        self.registers.increment_sp();
        make_word(msb, lsb)
    }

    /// Continues at `address`.
    pub fn jump(&mut self, address: u16)
        ensures
            final(self)@ == old(self)@.jump(address),
    {
        self.registers.set_pc(address);
    }

    /// Continues `offset` bytes from the program counter, wrapping at the
    /// ends of the address space.
    pub fn jump_relative(&mut self, offset: i8)
        ensures
            final(self)@ == old(self)@.skip(offset as int),
    {
        proof {
            reveal(wrap16);
            reveal(Machine::skip);
        }
        let address: u16 = self.registers.get_pc().wrapping_add_signed(offset as i16);
        self.jump(address);
    }

    /// Pushes the program counter and continues at `address`.
    pub fn call(&mut self, address: u16)
        ensures
            final(self)@ == old(self)@.call(address),
    {
        let return_address: u16 = self.registers.get_pc();
        self.push(return_address);
        self.jump(address);
    }

    /// Pushes the program counter and continues at the restart vector
    /// `offset`.
    pub fn restart(&mut self, offset: u8)
        ensures
            final(self)@ == old(self)@.call(offset as u16),
    {
        let return_address: u16 = self.registers.get_pc();
        self.push(return_address);
        self.jump(offset as u16);
    }

    /// Takes the return address off the stack and continues there.
    pub fn ret(&mut self)
        ensures
            final(self)@ == old(self)@.ret(),
    {
        let address: u16 = self.pop();
        self.jump(address);
    }
}

} // verus!
