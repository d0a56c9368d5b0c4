//! The CPU itself: architectural registers, memory, the loader and the
//! stack discipline.
//!
//! Conventions imposed by the loader and by reset:
//! - `0x0100..0x01FF` is the stack page;
//! - `0x8000` is the program load base;
//! - `0xFFFC/0xFFFD` hold the reset vector (little-endian initial program
//!   counter).

use crate::model::AddressingMode;
use crate::model::Fault;
use crate::model::Machine;
use crate::model::Step;
use crate::model::advance_pc;
use crate::model::boot_machine;
use crate::model::entry_ok;
use crate::model::lemma_steps_to_snoc;
use crate::model::lemma_wr16_rd16;
use crate::model::loaded_mem;
use crate::model::machine_wf;
use crate::model::mem_with_program;
use crate::model::operand_addr;
use crate::model::pop16_value;
use crate::model::pop8_value;
use crate::model::rd16;
use crate::model::rd8;
use crate::model::reaches;
use crate::model::seeded_boot_machine;
use crate::model::spec_push16;
use crate::model::spec_push8;
use crate::model::spec_step;
use crate::model::steps_to;
use crate::model::table_wf;
use crate::model::wr16;
use crate::model::wr8;
use crate::opcodes::Opcode;
use crate::status::Status;
use vstd::prelude::*;

verus! {

/// A MOS 6502 processor with its 64 KiB of flat RAM and its opcode
/// descriptor table.
pub struct CPU {
    pub accumulator: u8,
    pub status: Status,
    pub program_counter: u16,
    pub stack_pointer: u16,
    pub register_x: u8,
    pub register_y: u8,
    pub memory: Vec<u8>,
    pub opcode_table: Vec<Opcode>,
}

impl View for CPU {
    type V = Machine;

    open spec fn view(&self) -> Machine {
        Machine {
            a: self.accumulator,
            x: self.register_x,
            y: self.register_y,
            sp: self.stack_pointer,
            pc: self.program_counter,
            p: self.status@,
            mem: self.memory@,
        }
    }
}

/// A per-instruction observer supplied by the host. The fetch loop calls
/// `on_step` once at each loop head, before the opcode fetch, with mutable
/// access to the whole CPU, so a host can inspect state, single-step, or
/// force a halt by rewriting the program counter. An implementation must
/// leave the CPU well formed.
pub trait StepHook {
    fn on_step(&mut self, cpu: &mut CPU)
        requires
            old(cpu).wf(),
        ensures
            final(cpu).wf(),
    ;
}

/// The observer that does nothing: `run` behaves like `run_with_callback`
/// with this hook.
pub struct NoOpHook;

impl StepHook for NoOpHook {
    fn on_step(&mut self, cpu: &mut CPU) {
    }
}

impl CPU {
    /// The memory vector holds the full 64 KiB.
    pub open spec fn mem_wf(self) -> bool {
        self.memory@.len() == 0x10000
    }

    /// What the executable code maintains: full memory, a stack pointer
    /// inside the stack page, and a decode table that agrees with the
    /// mathematical one.
    pub open spec fn wf(self) -> bool {
        &&& machine_wf(self@)
        &&& table_wf(self.opcode_table@)
    }

    /// A fresh processor: registers and flags clear, stack pointer at
    /// `0x01FD`, all 64 KiB of memory zero, and the opcode table built.
    pub fn new() -> (cpu: CPU)
        ensures
            cpu.wf(),
            cpu@.a == 0,
            cpu@.x == 0,
            cpu@.y == 0,
            cpu@.p == 0,
            cpu@.sp == 0x01fd,
            cpu@.pc == 0,
            forall|i: int| 0 <= i < 0x10000 ==> cpu@.mem[i] == 0,
    {
        let opcodes = CPU::create_opcode_table();
        let memory: Vec<u8> = vec![0u8; 0x10000];

        CPU {
            accumulator: 0,
            status: Status { status: 0 },
            program_counter: 0,
            stack_pointer: 0x01fd,
            register_x: 0,
            register_y: 0,
            memory,
            opcode_table: opcodes,
        }
    }

    /// The byte at `address`.
    pub fn mem_read(&self, address: u16) -> (r: u8)
        requires
            self.mem_wf(),
        ensures
            r == rd8(self@.mem, address),
    {
        self.memory[address as usize]
    }

    /// The little-endian 16-bit word at `position`; the high byte is read
    /// at `position + 1`, wrapping within 16 bits.
    pub fn mem_read_u16(&self, position: u16) -> (r: u16)
        requires
            self.mem_wf(),
        ensures
            r == rd16(self@.mem, position),
    {
        let lo: u16 = self.mem_read(position) as u16;
        let hi: u16 = self.mem_read(position.wrapping_add(1)) as u16;
        (hi << 8) | lo
    }

    /// Replaces the byte at `address`.
    pub fn mem_write(&mut self, address: u16, data: u8)
        requires
            old(self).mem_wf(),
        ensures
            final(self)@ == (Machine { mem: wr8(old(self)@.mem, address, data), ..old(self)@ }),
            final(self).opcode_table@ == old(self).opcode_table@,
    {
        self.memory[address as usize] = data;
    }

    /// Replaces the little-endian 16-bit word at `address`: low byte at
    /// `address`, high byte at `address + 1`, wrapping within 16 bits.
    pub fn mem_write_u16(&mut self, address: u16, data: u16)
        requires
            old(self).mem_wf(),
        ensures
            final(self)@ == (Machine { mem: wr16(old(self)@.mem, address, data), ..old(self)@ }),
            final(self).opcode_table@ == old(self).opcode_table@,
    {
        proof {
            assert(data >> 8 < 256 && (data & 0xff) < 256) by (bit_vector);
        }
        let hi: u8 = (data >> 8) as u8;
        let lo: u8 = (data & 0xff) as u8;
        self.mem_write(address, lo);
        self.mem_write(address.wrapping_add(1), hi);
    }

    /// Copies a program image to the load base `0x8000` and seeds the reset
    /// vector at `0xFFFC` with that base.
    pub fn load(&mut self, program: Vec<u8>)
        requires
            old(self).mem_wf(),
            program@.len() <= 0x8000,
        ensures
            final(self)@ == (Machine {
                mem: loaded_mem(old(self)@.mem, program@),
                ..old(self)@
            }),
            final(self).opcode_table@ == old(self).opcode_table@,
    {
        let mut i: usize = 0;
        while i < program.len()
            invariant
                i <= program@.len(),
                program@.len() <= 0x8000,
                self.memory@.len() == 0x10000,
                forall|j: int| 0 <= j < i ==> self.memory@[0x8000 + j] == program@[j],
                forall|j: int|
                    0 <= j < 0x10000 && !(0x8000 <= j < 0x8000 + i) ==> self.memory@[j] == old(
                        self,
                    ).memory@[j],
                self.accumulator == old(self).accumulator,
                self.register_x == old(self).register_x,
                self.register_y == old(self).register_y,
                self.status@ == old(self).status@,
                self.program_counter == old(self).program_counter,
                self.stack_pointer == old(self).stack_pointer,
                self.opcode_table@ == old(self).opcode_table@,
            decreases program@.len() - i,
        {
            let b: u8 = program[i];
            self.mem_write(0x8000 + (i as u16), b);
            i = i + 1;
        }
        proof {
            assert(self.memory@ =~= mem_with_program(old(self).memory@, program@));
        }
        self.mem_write_u16(0xfffc, 0x8000);
    }

    /// Clears the registers and the flag byte, rewinds the stack pointer to
    /// `0x01FD`, and jumps to the address in the reset vector.
    pub fn reset(&mut self)
        requires
            old(self).mem_wf(),
        ensures
            final(self)@ == (Machine {
                a: 0,
                x: 0,
                y: 0,
                sp: 0x01fd,
                pc: rd16(old(self)@.mem, 0xfffc),
                p: 0,
                mem: old(self)@.mem,
            }),
            final(self).opcode_table@ == old(self).opcode_table@,
    {
        self.accumulator = 0;
        self.register_x = 0;
        self.register_y = 0;
        self.status.reset(0xff);
        self.stack_pointer = 0x01fd;

        proof {
            let p = old(self).status@;
            assert(p & !0xffu8 == 0) by (bit_vector);
        }
        self.program_counter = self.mem_read_u16(0xfffc);
    }

    /// Computes the effective address for the operand of the current
    /// instruction; the program counter must already point at the operand
    /// byte(s). `Implied` forms have no operand and must not be resolved.
    pub fn get_operand_address(&self, mode: AddressingMode) -> (addr: u16)
        requires
            self.mem_wf(),
            mode != AddressingMode::Implied,
        ensures
            addr == operand_addr(self@, mode),
    {
        match mode {
            AddressingMode::Immediate => self.program_counter,
            AddressingMode::ZeroPage => self.mem_read(self.program_counter) as u16,
            AddressingMode::ZeroPageX => {
                let position: u8 = self.mem_read(self.program_counter);
                let address: u16 = position.wrapping_add(self.register_x) as u16;
                address
            },
            AddressingMode::Absolute => self.mem_read_u16(self.program_counter),
            AddressingMode::AbsoluteX => {
                let base: u16 = self.mem_read_u16(self.program_counter);
                let address: u16 = base.wrapping_add(self.register_x as u16);
                address
            },
            AddressingMode::AbsoluteY => {
                let base: u16 = self.mem_read_u16(self.program_counter);
                let address: u16 = base.wrapping_add(self.register_y as u16);
                address
            },
            AddressingMode::IndirectX => {
                let base: u8 = self.mem_read(self.program_counter);
                let ptr: u8 = base.wrapping_add(self.register_x);
                let lo: u8 = self.mem_read(ptr as u16);
                let hi: u8 = self.mem_read(ptr.wrapping_add(1) as u16);
                ((hi as u16) << 8) | (lo as u16)
            },
            AddressingMode::IndirectY => {
                let base: u8 = self.mem_read(self.program_counter);
                let lo: u8 = self.mem_read(base as u16);
                let hi: u8 = self.mem_read(base.wrapping_add(1) as u16);
                let deref_base: u16 = ((hi as u16) << 8) | (lo as u16);
                let deref: u16 = deref_base.wrapping_add(self.register_y as u16);
                deref
            },
            AddressingMode::Implied => {
                assert(false);
                0
            },
        }
    }

    /// Moves the program counter past the operand bytes: the fetch already
    /// moved it past the opcode byte, so an instruction of `step` bytes
    /// advances by `step - 1` more, wrapping within 16 bits.
    pub fn increment_program_counter(&mut self, step: u8)
        requires
            1 <= step,
        ensures
            final(self)@ == advance_pc(old(self)@, step),
            final(self).opcode_table@ == old(self).opcode_table@,
    {
        self.program_counter = self.program_counter.wrapping_add(step as u16 - 1);
    }

    /// Pushes one byte: it lands at the stack pointer, which then moves
    /// down. A push that would leave the stack page is fatal and is ruled
    /// out here.
    pub fn push(&mut self, data: u8)
        requires
            old(self).mem_wf(),
            0x0100 < old(self).stack_pointer <= 0x01ff,
        ensures
            final(self)@ == spec_push8(old(self)@, data),
            final(self).opcode_table@ == old(self).opcode_table@,
    {
        self.mem_write(self.stack_pointer, data);
        self.stack_pointer = self.stack_pointer - 1;
    }

    /// Pushes a 16-bit word, high byte first, so that a later `pop_u16`
    /// reads the value back.
    pub fn push_u16(&mut self, data: u16)
        requires
            old(self).mem_wf(),
            0x0101 < old(self).stack_pointer <= 0x01ff,
        ensures
            final(self)@ == spec_push16(old(self)@, data),
            final(self).opcode_table@ == old(self).opcode_table@,
    {
        proof {
            assert(data >> 8 < 256 && (data & 0xff) < 256) by (bit_vector);
        }
        let hi: u8 = (data >> 8) as u8;
        let lo: u8 = (data & 0xff) as u8;
        self.push(hi);
        self.push(lo);
    }

    /// Pops one byte: the stack pointer moves up, then the byte at the new
    /// stack pointer is read. A pop that would leave the stack page is
    /// fatal and is ruled out here.
    pub fn pop(&mut self) -> (r: u8)
        requires
            old(self).mem_wf(),
            0x0100 <= old(self).stack_pointer < 0x01ff,
        ensures
            r == pop8_value(old(self)@),
            final(self)@ == (Machine { sp: (old(self)@.sp + 1) as u16, ..old(self)@ }),
            final(self).opcode_table@ == old(self).opcode_table@,
    {
        self.stack_pointer = self.stack_pointer + 1;
        let data: u8 = self.mem_read(self.stack_pointer);
        data
    }

    /// Loads a program image, resets the processor, and runs it to its
    /// terminating BRK. On success the final state is reached from the
    /// freshly booted machine by a chain of instruction steps ending in a
    /// halt; a fault reports why the run was aborted instead.
    pub fn load_and_run(&mut self, program: Vec<u8>) -> (r: Result<(), Fault>)
        requires
            old(self).mem_wf(),
            table_wf(old(self).opcode_table@),
            program@.len() <= 0x8000,
        ensures
            final(self).wf(),
            r is Ok ==> exists|m: Machine|
                #[trigger] reaches(boot_machine(old(self)@.mem, program@), m) && spec_step(m)
                    == Step::Halt(final(self)@),
            r matches Err(f) ==> if f is StepLimit {
                steps_to(boot_machine(old(self)@.mem, program@), final(self)@, u64::MAX as nat)
            } else {
                exists|m: Machine|
                    #[trigger] reaches(boot_machine(old(self)@.mem, program@), m) && spec_step(m)
                        == Step::Fault(final(self)@, f)
            },
    {
        let ghost mem0 = self@.mem;
        self.load(program);
        self.reset();
        proof {
            lemma_wr16_rd16(mem_with_program(mem0, program@), 0xfffc, 0x8000);
            assert(self@ =~= boot_machine(mem0, program@));
        }
        self.run()
    }

    /// Loads a program image and runs it from the reset vector without
    /// clearing registers or flags first, so a host can seed state before
    /// the run.
    pub fn debug_load_and_run(&mut self, program: Vec<u8>) -> (r: Result<(), Fault>)
        requires
            old(self).wf(),
            program@.len() <= 0x8000,
        ensures
            final(self).wf(),
            r is Ok ==> exists|m: Machine|
                #[trigger] reaches(seeded_boot_machine(old(self)@, program@), m)
                    && spec_step(m) == Step::Halt(final(self)@),
            r matches Err(f) ==> if f is StepLimit {
                steps_to(seeded_boot_machine(old(self)@, program@), final(self)@, u64::MAX as nat)
            } else {
                exists|m: Machine|
                    #[trigger] reaches(seeded_boot_machine(old(self)@, program@), m)
                        && spec_step(m) == Step::Fault(final(self)@, f)
            },
    {
        let ghost mem0 = self@.mem;
        self.load(program);
        proof {
            lemma_wr16_rd16(mem_with_program(mem0, program@), 0xfffc, 0x8000);
        }
        self.program_counter = self.mem_read_u16(0xfffc);
        proof {
            assert(self@ =~= seeded_boot_machine(old(self)@, program@));
        }
        self.run()
    }

    /// The fetch-decode-execute loop. Runs until BRK halts the program
    /// (`Ok`) or a fault aborts it (`Err`). On success the final state is
    /// reached from the starting state by a chain of instruction steps
    /// whose last step is a halt; on a fault, a chain whose last step
    /// faults with the reported cause. The loop carries a budget of
    /// `u64::MAX` instructions so that it provably terminates; a program
    /// that is still running then -- which no realizable run is -- stops
    /// in a faithfully reached state with [`Fault::StepLimit`].
    pub fn run(&mut self) -> (r: Result<(), Fault>)
        requires
            old(self).wf(),
        ensures
            final(self).wf(),
            r is Ok ==> exists|m: Machine|
                #[trigger] reaches(old(self)@, m) && spec_step(m) == Step::Halt(final(self)@),
            r matches Err(f) ==> if f is StepLimit {
                steps_to(old(self)@, final(self)@, u64::MAX as nat)
            } else {
                exists|m: Machine|
                    #[trigger] reaches(old(self)@, m) && spec_step(m) == Step::Fault(
                        final(self)@,
                        f,
                    )
            },
    {
        let mut fuel: u64 = u64::MAX;
        loop
            invariant
                self.wf(),
                fuel <= u64::MAX,
                steps_to(old(self)@, self@, (u64::MAX - fuel) as nat),
            decreases fuel,
        {
            proof {
                assert(reaches(old(self)@, self@));
            }
            if fuel == 0 {
                return Err(Fault::StepLimit);
            }
            fuel = fuel - 1;
            let ghost m_head = self@;
            let code: u8 = self.mem_read(self.program_counter);
            let opcode: Opcode = self.opcode_table[code as usize];
            self.program_counter = self.program_counter.wrapping_add(1);

            proof {
                assert(entry_ok(self.opcode_table@[code as int], code));
            }
            if opcode.length == 0 {
                return Err(Fault::UnknownOpcode(code));
            }
            if (code == 0x48 || code == 0x08) && self.stack_pointer == 0x0100 {
                return Err(Fault::StackOverflow);
            }
            if (code == 0x68 || code == 0x28) && self.stack_pointer == 0x01ff {
                return Err(Fault::StackUnderflow);
            }

            let continue_execution: bool = self.interpret(&opcode);
            if !continue_execution {
                return Ok(());
            }
            proof {
                lemma_steps_to_snoc(old(self)@, m_head, self@, (u64::MAX - (fuel + 1)) as nat);
            }
        }
    }

    /// The fetch-decode-execute loop with a host observer: `callback` runs
    /// at each loop head with mutable access to the whole CPU. Since the
    /// observer may rewrite any part of the state, no step chain from the
    /// starting state can be promised; what is promised is that every
    /// outcome is an instruction's doing: an `Ok` means some well-formed
    /// machine -- the state the last hook call left -- stepped to a halt
    /// at the final state, and every fault but the step budget likewise
    /// came from a step out of such a machine. The per-instruction
    /// semantics is carried by [`CPU::interpret`]; the step budget is as
    /// in [`CPU::run`].
    pub fn run_with_callback<F: StepHook>(&mut self, callback: &mut F) -> (r: Result<(), Fault>)
        requires
            old(self).wf(),
        ensures
            final(self).wf(),
            r is Ok ==> exists|m: Machine|
                machine_wf(m) && #[trigger] spec_step(m) == Step::Halt(final(self)@),
            r matches Err(f) ==> f is StepLimit || exists|m: Machine|
                machine_wf(m) && #[trigger] spec_step(m) == Step::Fault(final(self)@, f),
    {
        let mut fuel: u64 = u64::MAX;
        loop
            invariant
                self.wf(),
            decreases fuel,
        {
            if fuel == 0 {
                return Err(Fault::StepLimit);
            }
            fuel = fuel - 1;
            callback.on_step(self);
            let ghost m_head = self@;
            let code: u8 = self.mem_read(self.program_counter);
            let opcode: Opcode = self.opcode_table[code as usize];
            self.program_counter = self.program_counter.wrapping_add(1);

            proof {
                assert(entry_ok(self.opcode_table@[code as int], code));
            }
            if opcode.length == 0 {
                proof {
                    assert(spec_step(m_head) == Step::Fault(self@, Fault::UnknownOpcode(code)));
                }
                return Err(Fault::UnknownOpcode(code));
            }
            if (code == 0x48 || code == 0x08) && self.stack_pointer == 0x0100 {
                proof {
                    assert(spec_step(m_head) == Step::Fault(self@, Fault::StackOverflow));
                }
                return Err(Fault::StackOverflow);
            }
            if (code == 0x68 || code == 0x28) && self.stack_pointer == 0x01ff {
                proof {
                    assert(spec_step(m_head) == Step::Fault(self@, Fault::StackUnderflow));
                }
                return Err(Fault::StackUnderflow);
            }

            let continue_execution: bool = self.interpret(&opcode);
            if !continue_execution {
                proof {
                    assert(spec_step(m_head) == Step::Halt(self@));
                }
                return Ok(());
            }
        }
    }

    /// Pops a 16-bit word: low byte first, then high byte.
    pub fn pop_u16(&mut self) -> (r: u16)
        requires
            old(self).mem_wf(),
            0x0100 <= old(self).stack_pointer < 0x01fe,
        ensures
            r == pop16_value(old(self)@),
            final(self)@ == (Machine { sp: (old(self)@.sp + 2) as u16, ..old(self)@ }),
            final(self).opcode_table@ == old(self).opcode_table@,
    {
        let lo: u16 = self.pop() as u16;
        let hi: u16 = self.pop() as u16;
        (hi << 8) | lo
    }
}

} // verus!
