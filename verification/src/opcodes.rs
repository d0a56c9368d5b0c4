//! The opcode descriptor table and the instruction executor.

use crate::cpu::CPU;
use crate::model::AddressingMode;
use crate::model::Machine;
use crate::model::Step;
use crate::model::add_machine;
use crate::model::entry_ok;
use crate::model::opcode_defined;
use crate::model::operand_addr;
use crate::model::pop8_value;
use crate::model::rd8;
use crate::model::ror_result;
use crate::model::set_nz;
use crate::model::spec_adc;
use crate::model::spec_and;
use crate::model::spec_asl;
use crate::model::spec_clc;
use crate::model::spec_cld;
use crate::model::spec_cli;
use crate::model::spec_clv;
use crate::model::spec_cmp_with;
use crate::model::spec_dec;
use crate::model::spec_dex;
use crate::model::spec_dey;
use crate::model::spec_eor;
use crate::model::spec_exec;
use crate::model::spec_inc;
use crate::model::spec_inx;
use crate::model::spec_iny;
use crate::model::spec_lda;
use crate::model::spec_ldx;
use crate::model::spec_ldy;
use crate::model::spec_lsr;
use crate::model::spec_ora;
use crate::model::spec_pha;
use crate::model::spec_php;
use crate::model::spec_pla;
use crate::model::spec_plp;
use crate::model::spec_rol;
use crate::model::spec_ror;
use crate::model::spec_sbc;
use crate::model::spec_sec;
use crate::model::spec_sed;
use crate::model::spec_sei;
use crate::model::spec_sta;
use crate::model::spec_stx;
use crate::model::spec_sty;
use crate::model::spec_tax;
use crate::model::spec_tay;
use crate::model::spec_tsx;
use crate::model::spec_txa;
use crate::model::spec_txs;
use crate::model::spec_tya;
use crate::model::lemma_txs_sp_range;
use crate::model::table_wf;
use crate::status::Status;
use vstd::prelude::*;

verus! {

/// One entry of the 256-entry opcode descriptor table: the opcode byte, a
/// mnemonic for hosts and debuggers, the instruction length in bytes, the
/// nominal cycle count, and the addressing mode.
#[derive(Clone, Copy)]
pub struct Opcode {
    pub code: u8,
    pub mnemonic: &'static str,
    pub length: u8,
    pub cycles: u8,
    pub mode: AddressingMode,
}

impl Opcode {
    fn new(code: u8, mnemonic: &'static str, length: u8, cycles: u8, mode: AddressingMode) -> (o:
        Opcode)
        ensures
            o.code == code,
            o.mnemonic == mnemonic,
            o.length == length,
            o.cycles == cycles,
            o.mode == mode,
    {
        Opcode { code, mnemonic, length, cycles, mode }
    }

    /// The placeholder for unpopulated table entries; its zero length marks
    /// it, and executing it is fatal.
    fn basic() -> (o: Opcode)
        ensures
            o.code == 0x02,
            o.mnemonic == "NUL",
            o.length == 0,
            o.cycles == 0,
            o.mode == AddressingMode::Immediate,
    {
        Opcode { code: 0x02, mnemonic: "NUL", length: 0, cycles: 0, mode: AddressingMode::Immediate }
    }

    /// The descriptor of one opcode byte, as the table holds it.
    #[verifier::rlimit(100)]
    fn descriptor(code: u8) -> (o: Opcode)
        ensures
            entry_ok(o, code),
    {
        match code {
            0x00 => Opcode::new(0x00, "BRK", 1, 7, AddressingMode::Implied),
            0x69 => Opcode::new(0x69, "ADC", 2, 2, AddressingMode::Immediate),
            0x65 => Opcode::new(0x65, "ADC", 2, 3, AddressingMode::ZeroPage),
            0x75 => Opcode::new(0x75, "ADC", 2, 4, AddressingMode::ZeroPageX),
            0x6d => Opcode::new(0x6d, "ADC", 3, 4, AddressingMode::Absolute),
            0x7d => Opcode::new(0x7d, "ADC", 3, 4, AddressingMode::AbsoluteX),
            0x79 => Opcode::new(0x79, "ADC", 3, 4, AddressingMode::AbsoluteY),
            0x61 => Opcode::new(0x61, "ADC", 2, 6, AddressingMode::IndirectX),
            0x71 => Opcode::new(0x71, "ADC", 2, 5, AddressingMode::IndirectY),
            0x29 => Opcode::new(0x29, "AND", 2, 2, AddressingMode::Immediate),
            0x25 => Opcode::new(0x25, "AND", 2, 3, AddressingMode::ZeroPage),
            0x35 => Opcode::new(0x35, "AND", 2, 4, AddressingMode::ZeroPageX),
            0x2d => Opcode::new(0x2d, "AND", 3, 4, AddressingMode::Absolute),
            0x3d => Opcode::new(0x3d, "AND", 3, 4, AddressingMode::AbsoluteX),
            0x39 => Opcode::new(0x39, "AND", 3, 4, AddressingMode::AbsoluteY),
            0x21 => Opcode::new(0x21, "AND", 2, 6, AddressingMode::IndirectX),
            0x31 => Opcode::new(0x31, "AND", 2, 5, AddressingMode::IndirectY),
            0x0a => Opcode::new(0x0a, "ASL", 1, 2, AddressingMode::Implied),
            0x06 => Opcode::new(0x06, "ASL", 2, 5, AddressingMode::ZeroPage),
            0x16 => Opcode::new(0x16, "ASL", 2, 6, AddressingMode::ZeroPageX),
            0x0e => Opcode::new(0x0e, "ASL", 3, 6, AddressingMode::Absolute),
            0x1e => Opcode::new(0x1e, "ASL", 3, 7, AddressingMode::AbsoluteX),
            0x18 => Opcode::new(0x18, "CLC", 1, 2, AddressingMode::Implied),
            0xd8 => Opcode::new(0xd8, "CLD", 1, 2, AddressingMode::Implied),
            0x58 => Opcode::new(0x58, "CLI", 1, 2, AddressingMode::Implied),
            0xb8 => Opcode::new(0xb8, "CLV", 1, 2, AddressingMode::Implied),
            0xc9 => Opcode::new(0xc9, "CMP", 2, 2, AddressingMode::Immediate),
            0xc5 => Opcode::new(0xc5, "CMP", 2, 3, AddressingMode::ZeroPage),
            0xd5 => Opcode::new(0xd5, "CMP", 2, 4, AddressingMode::ZeroPageX),
            0xcd => Opcode::new(0xcd, "CMP", 3, 4, AddressingMode::Absolute),
            0xdd => Opcode::new(0xdd, "CMP", 3, 4, AddressingMode::AbsoluteX),
            0xd9 => Opcode::new(0xd9, "CMP", 3, 4, AddressingMode::AbsoluteY),
            0xc1 => Opcode::new(0xc1, "CMP", 2, 6, AddressingMode::IndirectX),
            0xd1 => Opcode::new(0xd1, "CMP", 2, 5, AddressingMode::IndirectY),
            0xe0 => Opcode::new(0xe0, "CPX", 2, 2, AddressingMode::Immediate),
            0xe4 => Opcode::new(0xe4, "CPX", 2, 3, AddressingMode::ZeroPage),
            0xec => Opcode::new(0xec, "CPX", 3, 4, AddressingMode::Absolute),
            0xc0 => Opcode::new(0xc0, "CPY", 2, 2, AddressingMode::Immediate),
            0xc4 => Opcode::new(0xc4, "CPY", 2, 3, AddressingMode::ZeroPage),
            0xcc => Opcode::new(0xcc, "CPY", 3, 4, AddressingMode::Absolute),
            0xc6 => Opcode::new(0xc6, "DEC", 2, 5, AddressingMode::ZeroPage),
            0xd6 => Opcode::new(0xd6, "DEC", 2, 6, AddressingMode::ZeroPageX),
            0xce => Opcode::new(0xce, "DEC", 3, 6, AddressingMode::Absolute),
            0xde => Opcode::new(0xde, "DEC", 3, 7, AddressingMode::AbsoluteX),
            0xca => Opcode::new(0xca, "DEX", 1, 2, AddressingMode::Implied),
            0x88 => Opcode::new(0x88, "DEY", 1, 2, AddressingMode::Implied),
            0x49 => Opcode::new(0x49, "EOR", 2, 2, AddressingMode::Immediate),
            0x45 => Opcode::new(0x45, "EOR", 2, 3, AddressingMode::ZeroPage),
            0x55 => Opcode::new(0x55, "EOR", 2, 4, AddressingMode::ZeroPageX),
            0x4d => Opcode::new(0x4d, "EOR", 3, 4, AddressingMode::Absolute),
            0x5d => Opcode::new(0x5d, "EOR", 3, 4, AddressingMode::AbsoluteX),
            0x59 => Opcode::new(0x59, "EOR", 3, 4, AddressingMode::AbsoluteY),
            0x41 => Opcode::new(0x41, "EOR", 2, 6, AddressingMode::IndirectX),
            0x51 => Opcode::new(0x51, "EOR", 2, 5, AddressingMode::IndirectY),
            0xe6 => Opcode::new(0xe6, "INC", 2, 5, AddressingMode::ZeroPage),
            0xf6 => Opcode::new(0xf6, "INC", 2, 6, AddressingMode::ZeroPageX),
            0xee => Opcode::new(0xee, "INC", 3, 6, AddressingMode::Absolute),
            0xfe => Opcode::new(0xfe, "INC", 3, 7, AddressingMode::AbsoluteX),
            0xe8 => Opcode::new(0xe8, "INX", 1, 2, AddressingMode::Implied),
            0xc8 => Opcode::new(0xc8, "INY", 1, 2, AddressingMode::Implied),
            0xa9 => Opcode::new(0xa9, "LDA", 2, 2, AddressingMode::Immediate),
            0xa5 => Opcode::new(0xa5, "LDA", 2, 3, AddressingMode::ZeroPage),
            0xb5 => Opcode::new(0xb5, "LDA", 2, 4, AddressingMode::ZeroPageX),
            0xad => Opcode::new(0xad, "LDA", 3, 4, AddressingMode::Absolute),
            0xbd => Opcode::new(0xbd, "LDA", 3, 4, AddressingMode::AbsoluteX),
            0xb9 => Opcode::new(0xb9, "LDA", 3, 4, AddressingMode::AbsoluteY),
            0xa1 => Opcode::new(0xa1, "LDA", 2, 6, AddressingMode::IndirectX),
            0xb1 => Opcode::new(0xb1, "LDA", 2, 5, AddressingMode::IndirectY),
            0xa2 => Opcode::new(0xa2, "LDX", 2, 2, AddressingMode::Immediate),
            0xa6 => Opcode::new(0xa6, "LDX", 2, 3, AddressingMode::ZeroPage),
            0xb6 => Opcode::new(0xb6, "LDX", 2, 4, AddressingMode::ZeroPageX),
            0xae => Opcode::new(0xae, "LDX", 3, 4, AddressingMode::Absolute),
            0xbe => Opcode::new(0xbe, "LDX", 3, 4, AddressingMode::AbsoluteY),
            0xa0 => Opcode::new(0xa0, "LDY", 2, 2, AddressingMode::Immediate),
            0xa4 => Opcode::new(0xa4, "LDY", 2, 3, AddressingMode::ZeroPage),
            0xb4 => Opcode::new(0xb4, "LDY", 2, 4, AddressingMode::ZeroPageX),
            0xac => Opcode::new(0xac, "LDY", 3, 4, AddressingMode::Absolute),
            0xbc => Opcode::new(0xbc, "LDY", 3, 4, AddressingMode::AbsoluteX),
            0x4a => Opcode::new(0x4a, "LSR", 1, 2, AddressingMode::Implied),
            0x46 => Opcode::new(0x46, "LSR", 2, 5, AddressingMode::ZeroPage),
            0x56 => Opcode::new(0x56, "LSR", 2, 6, AddressingMode::ZeroPageX),
            0x4e => Opcode::new(0x4e, "LSR", 3, 6, AddressingMode::Absolute),
            0x5e => Opcode::new(0x5e, "LSR", 3, 7, AddressingMode::AbsoluteX),
            0xea => Opcode::new(0xea, "NOP", 1, 2, AddressingMode::Implied),
            0x09 => Opcode::new(0x09, "ORA", 2, 2, AddressingMode::Immediate),
            0x05 => Opcode::new(0x05, "ORA", 2, 3, AddressingMode::ZeroPage),
            0x15 => Opcode::new(0x15, "ORA", 2, 4, AddressingMode::ZeroPageX),
            0x0d => Opcode::new(0x0d, "ORA", 3, 4, AddressingMode::Absolute),
            0x1d => Opcode::new(0x1d, "ORA", 3, 4, AddressingMode::AbsoluteX),
            0x19 => Opcode::new(0x19, "ORA", 3, 4, AddressingMode::AbsoluteY),
            0x01 => Opcode::new(0x01, "ORA", 2, 6, AddressingMode::IndirectX),
            0x11 => Opcode::new(0x11, "ORA", 2, 5, AddressingMode::IndirectY),
            0x48 => Opcode::new(0x48, "PHA", 1, 3, AddressingMode::Implied),
            0x08 => Opcode::new(0x08, "PHP", 1, 3, AddressingMode::Implied),
            0x68 => Opcode::new(0x68, "PLA", 1, 4, AddressingMode::Implied),
            0x28 => Opcode::new(0x28, "PLP", 1, 4, AddressingMode::Implied),
            0x2a => Opcode::new(0x2a, "ROL", 1, 2, AddressingMode::Implied),
            0x26 => Opcode::new(0x26, "ROL", 2, 5, AddressingMode::ZeroPage),
            0x36 => Opcode::new(0x36, "ROL", 2, 6, AddressingMode::ZeroPageX),
            0x2e => Opcode::new(0x2e, "ROL", 3, 6, AddressingMode::Absolute),
            0x3e => Opcode::new(0x3e, "ROL", 3, 7, AddressingMode::AbsoluteX),
            0x6a => Opcode::new(0x6a, "ROR", 1, 2, AddressingMode::Implied),
            0x66 => Opcode::new(0x66, "ROR", 2, 5, AddressingMode::ZeroPage),
            0x76 => Opcode::new(0x76, "ROR", 2, 6, AddressingMode::ZeroPageX),
            0x6e => Opcode::new(0x6e, "ROR", 3, 6, AddressingMode::Absolute),
            0x7e => Opcode::new(0x7e, "ROR", 3, 7, AddressingMode::AbsoluteX),
            0xe9 => Opcode::new(0xe9, "SBC", 2, 2, AddressingMode::Immediate),
            0xe5 => Opcode::new(0xe5, "SBC", 2, 3, AddressingMode::ZeroPage),
            0xf5 => Opcode::new(0xf5, "SBC", 2, 4, AddressingMode::ZeroPageX),
            0xed => Opcode::new(0xed, "SBC", 3, 4, AddressingMode::Absolute),
            0xfd => Opcode::new(0xfd, "SBC", 3, 4, AddressingMode::AbsoluteX),
            0xf9 => Opcode::new(0xf9, "SBC", 3, 4, AddressingMode::AbsoluteY),
            0xe1 => Opcode::new(0xe1, "SBC", 2, 6, AddressingMode::IndirectX),
            0xf1 => Opcode::new(0xf1, "SBC", 2, 5, AddressingMode::IndirectY),
            0x38 => Opcode::new(0x38, "SEC", 1, 2, AddressingMode::Implied),
            0xf8 => Opcode::new(0xf8, "SED", 1, 2, AddressingMode::Implied),
            0x78 => Opcode::new(0x78, "SEI", 1, 2, AddressingMode::Implied),
            0x85 => Opcode::new(0x85, "STA", 2, 3, AddressingMode::ZeroPage),
            0x95 => Opcode::new(0x95, "STA", 2, 4, AddressingMode::ZeroPageX),
            0x8d => Opcode::new(0x8d, "STA", 3, 4, AddressingMode::Absolute),
            0x9d => Opcode::new(0x9d, "STA", 3, 5, AddressingMode::AbsoluteX),
            0x99 => Opcode::new(0x99, "STA", 3, 5, AddressingMode::AbsoluteY),
            0x81 => Opcode::new(0x81, "STA", 2, 6, AddressingMode::IndirectX),
            0x91 => Opcode::new(0x91, "STA", 2, 6, AddressingMode::IndirectY),
            0x86 => Opcode::new(0x86, "STX", 2, 3, AddressingMode::ZeroPage),
            0x96 => Opcode::new(0x96, "STX", 2, 4, AddressingMode::ZeroPageX),
            0x8e => Opcode::new(0x8e, "STX", 3, 4, AddressingMode::Absolute),
            0x84 => Opcode::new(0x84, "STY", 2, 3, AddressingMode::ZeroPage),
            0x94 => Opcode::new(0x94, "STY", 2, 4, AddressingMode::ZeroPageX),
            0x8c => Opcode::new(0x8c, "STY", 3, 4, AddressingMode::Absolute),
            0xaa => Opcode::new(0xaa, "TAX", 1, 2, AddressingMode::Implied),
            0xa8 => Opcode::new(0xa8, "TAY", 1, 2, AddressingMode::Implied),
            0xba => Opcode::new(0xba, "TSX", 1, 2, AddressingMode::Implied),
            0x8a => Opcode::new(0x8a, "TXA", 1, 2, AddressingMode::Implied),
            0x9a => Opcode::new(0x9a, "TXS", 1, 2, AddressingMode::Implied),
            0x98 => Opcode::new(0x98, "TYA", 1, 2, AddressingMode::Implied),
            _ => Opcode::basic(),
        }
    }
}

impl CPU {
    /// Executes one already-fetched instruction: the program counter must
    /// point past the opcode byte, at the operand byte(s). Returns `false`
    /// exactly for BRK, which halts the fetch loop. The whole effect is the
    /// one-instruction semantics [`spec_exec`]; inputs on which that
    /// semantics faults (a push or pop leaving the stack page) are ruled
    /// out here and caught by the fetch loop instead.
    pub fn interpret(&mut self, opcode: &Opcode) -> (r: bool)
        requires
            old(self).wf(),
            entry_ok(*opcode, opcode.code),
            opcode_defined(opcode.code),
            !(spec_exec(old(self)@, opcode.code) is Fault),
        ensures
            final(self).wf(),
            final(self).opcode_table@ == old(self).opcode_table@,
            r == (opcode.code != 0x00),
            spec_exec(old(self)@, opcode.code) == (if r {
                Step::Next(final(self)@)
            } else {
                Step::Halt(final(self)@)
            }),
            final(self)@.pc == old(self)@.pc.wrapping_add((opcode.length - 1) as u16),
    {
        match opcode.code {
            0x00 => {
                self.increment_program_counter(opcode.length);
                return false;
            },
            0x69 | 0x65 | 0x75 | 0x6d | 0x7d | 0x79 | 0x61 | 0x71 => self.adc(opcode),
            0x29 | 0x25 | 0x35 | 0x2d | 0x3d | 0x39 | 0x21 | 0x31 => self.and(opcode),
            0xc9 | 0xc5 | 0xd5 | 0xcd | 0xdd | 0xd9 | 0xc1 | 0xd1 => self.cmp(opcode),
            0xe0 | 0xe4 | 0xec => self.cpx(opcode),
            0xc0 | 0xc4 | 0xcc => self.cpy(opcode),
            0x0a | 0x06 | 0x16 | 0x0e | 0x1e => self.asl(opcode),
            0x18 => self.clc(),
            0xd8 => self.cld(),
            0x58 => self.cli(),
            0xb8 => self.clv(),
            0xc6 | 0xd6 | 0xce | 0xde => self.dec(opcode),
            0xca => self.dex(),
            0x88 => self.dey(),
            0x49 | 0x45 | 0x55 | 0x4d | 0x5d | 0x59 | 0x41 | 0x51 => self.eor(opcode),
            0xe6 | 0xf6 | 0xee | 0xfe => self.inc(opcode),
            0xe8 => self.inx(opcode),
            0xc8 => self.iny(opcode),
            0xa9 | 0xa5 | 0xb5 | 0xad | 0xbd | 0xb9 | 0xa1 | 0xb1 => self.lda(opcode),
            0xa2 | 0xa6 | 0xb6 | 0xae | 0xbe => self.ldx(opcode),
            0xa0 | 0xa4 | 0xb4 | 0xac | 0xbc => self.ldy(opcode),
            0x4a | 0x46 | 0x56 | 0x4e | 0x5e => self.lsr(opcode),
            0xea => self.nop(),
            0x09 | 0x05 | 0x15 | 0x0d | 0x1d | 0x19 | 0x01 | 0x11 => self.ora(opcode),
            0x48 => self.pha(),
            0x08 => self.php(),
            0x68 => self.pla(),
            0x28 => self.plp(),
            0x2a | 0x26 | 0x36 | 0x2e | 0x3e => self.rol(opcode),
            0x6a | 0x66 | 0x76 | 0x6e | 0x7e => self.ror(opcode),
            0xe9 | 0xe5 | 0xf5 | 0xed | 0xfd | 0xf9 | 0xe1 | 0xf1 => self.sbc(opcode),
            0x38 => self.sec(),
            0xf8 => self.sed(),
            0x78 => self.sei(),
            0x85 | 0x95 | 0x8d | 0x9d | 0x99 | 0x81 | 0x91 => self.sta(opcode),
            0x86 | 0x96 | 0x8e => self.stx(opcode),
            0x84 | 0x94 | 0x8c => self.sty(opcode),
            0xaa => self.tax(),
            0xa8 => self.tay(),
            0xba => self.tsx(),
            0x8a => self.txa(),
            0x9a => {
                self.txs();
                proof {
                    lemma_txs_sp_range(old(self).register_x);
                }
            },
            0x98 => self.tya(),
            _ => {
                proof {
                    assert(false);
                }
            },
        }
        true
    }

    fn adc(&mut self, opcode: &Opcode)
        requires
            old(self).mem_wf(),
            opcode.mode != AddressingMode::Implied,
            1 <= opcode.length,
        ensures
            final(self)@ == spec_adc(old(self)@, opcode.mode, opcode.length),
            final(self).opcode_table@ == old(self).opcode_table@,
    {
        let address: u16 = self.get_operand_address(opcode.mode);
        let value: u8 = self.mem_read(address);
        self.add_to_accumulator(value);
        self.update_zero_and_negative_flags(self.accumulator);
        self.increment_program_counter(opcode.length);
    }

    fn and(&mut self, opcode: &Opcode)
        requires
            old(self).mem_wf(),
            opcode.mode != AddressingMode::Implied,
            1 <= opcode.length,
        ensures
            final(self)@ == spec_and(old(self)@, opcode.mode, opcode.length),
            final(self).opcode_table@ == old(self).opcode_table@,
    {
        let address: u16 = self.get_operand_address(opcode.mode);
        let value: u8 = self.mem_read(address);
        self.accumulator &= value;
        self.update_zero_and_negative_flags(self.accumulator);
        self.increment_program_counter(opcode.length);
    }

    fn asl(&mut self, opcode: &Opcode)
        requires
            old(self).mem_wf(),
            1 <= opcode.length,
        ensures
            final(self)@ == spec_asl(old(self)@, opcode.mode, opcode.length),
            final(self).opcode_table@ == old(self).opcode_table@,
    {
        if opcode.mode == AddressingMode::Implied {
            let value: u8 = self.accumulator;
            let result: u8 = value << 1;
            self.accumulator = result;
            if value & 0x80 != 0 {
                self.status.set(Status::CARRY);
            } else {
                self.status.reset(Status::CARRY);
            }
            self.update_zero_and_negative_flags(result);
        } else {
            let address: u16 = self.get_operand_address(opcode.mode);
            let value: u8 = self.mem_read(address);
            let result: u8 = value << 1;
            self.mem_write(address, result);
            if value & 0x80 != 0 {
                self.status.set(Status::CARRY);
            } else {
                self.status.reset(Status::CARRY);
            }
            self.update_zero_and_negative_flags(result);
        }
        self.increment_program_counter(opcode.length);
    }

    fn cmp(&mut self, opcode: &Opcode)
        requires
            old(self).mem_wf(),
            opcode.mode != AddressingMode::Implied,
            1 <= opcode.length,
        ensures
            final(self)@ == spec_cmp_with(
                old(self)@,
                opcode.mode,
                opcode.length,
                old(self).accumulator,
            ),
            final(self).opcode_table@ == old(self).opcode_table@,
    {
        self.compare(opcode, self.accumulator);
    }

    fn cpx(&mut self, opcode: &Opcode)
        requires
            old(self).mem_wf(),
            opcode.mode != AddressingMode::Implied,
            1 <= opcode.length,
        ensures
            final(self)@ == spec_cmp_with(
                old(self)@,
                opcode.mode,
                opcode.length,
                old(self).register_x,
            ),
            final(self).opcode_table@ == old(self).opcode_table@,
    {
        self.compare(opcode, self.register_x);
    }

    fn cpy(&mut self, opcode: &Opcode)
        requires
            old(self).mem_wf(),
            opcode.mode != AddressingMode::Implied,
            1 <= opcode.length,
        ensures
            final(self)@ == spec_cmp_with(
                old(self)@,
                opcode.mode,
                opcode.length,
                old(self).register_y,
            ),
            final(self).opcode_table@ == old(self).opcode_table@,
    {
        self.compare(opcode, self.register_y);
    }

    fn clc(&mut self)
        ensures
            final(self)@ == spec_clc(old(self)@),
            final(self).opcode_table@ == old(self).opcode_table@,
    {
        self.status.reset(Status::CARRY);
    }

    fn sec(&mut self)
        ensures
            final(self)@ == spec_sec(old(self)@),
            final(self).opcode_table@ == old(self).opcode_table@,
    {
        self.status.set(Status::CARRY);
    }

    fn cld(&mut self)
        ensures
            final(self)@ == spec_cld(old(self)@),
            final(self).opcode_table@ == old(self).opcode_table@,
    {
        self.status.reset(Status::DECIMAL_MODE);
    }

    fn sed(&mut self)
        ensures
            final(self)@ == spec_sed(old(self)@),
            final(self).opcode_table@ == old(self).opcode_table@,
    {
        self.status.set(Status::DECIMAL_MODE);
    }

    fn cli(&mut self)
        ensures
            final(self)@ == spec_cli(old(self)@),
            final(self).opcode_table@ == old(self).opcode_table@,
    {
        self.status.reset(Status::INTERRUPT_DISABLE);
    }

    fn sei(&mut self)
        ensures
            final(self)@ == spec_sei(old(self)@),
            final(self).opcode_table@ == old(self).opcode_table@,
    {
        self.status.set(Status::INTERRUPT_DISABLE);
    }

    fn clv(&mut self)
        ensures
            final(self)@ == spec_clv(old(self)@),
            final(self).opcode_table@ == old(self).opcode_table@,
    {
        self.status.reset(Status::OVERFLOW);
    }

    fn dec(&mut self, opcode: &Opcode)
        requires
            old(self).mem_wf(),
            opcode.mode != AddressingMode::Implied,
            1 <= opcode.length,
        ensures
            final(self)@ == spec_dec(old(self)@, opcode.mode, opcode.length),
            final(self).opcode_table@ == old(self).opcode_table@,
    {
        let address: u16 = self.get_operand_address(opcode.mode);
        let value: u8 = self.mem_read(address);
        let result: u8 = value.wrapping_sub(1);
        self.mem_write(address, result);
        self.update_zero_and_negative_flags(result);
        self.increment_program_counter(opcode.length);
    }

    fn dex(&mut self)
        ensures
            final(self)@ == spec_dex(old(self)@),
            final(self).opcode_table@ == old(self).opcode_table@,
    {
        self.register_x = self.register_x.wrapping_sub(1);
        self.update_zero_and_negative_flags(self.register_x);
    }

    fn dey(&mut self)
        ensures
            final(self)@ == spec_dey(old(self)@),
            final(self).opcode_table@ == old(self).opcode_table@,
    {
        self.register_y = self.register_y.wrapping_sub(1);
        self.update_zero_and_negative_flags(self.register_y);
    }

    fn eor(&mut self, opcode: &Opcode)
        requires
            old(self).mem_wf(),
            opcode.mode != AddressingMode::Implied,
            1 <= opcode.length,
        ensures
            final(self)@ == spec_eor(old(self)@, opcode.mode, opcode.length),
            final(self).opcode_table@ == old(self).opcode_table@,
    {
        let address: u16 = self.get_operand_address(opcode.mode);
        let value: u8 = self.mem_read(address);
        let result: u8 = self.accumulator ^ value;
        self.accumulator = result;
        self.update_zero_and_negative_flags(result);
        self.increment_program_counter(opcode.length);
    }

    fn inc(&mut self, opcode: &Opcode)
        requires
            old(self).mem_wf(),
            opcode.mode != AddressingMode::Implied,
            1 <= opcode.length,
        ensures
            final(self)@ == spec_inc(old(self)@, opcode.mode, opcode.length),
            final(self).opcode_table@ == old(self).opcode_table@,
    {
        let address: u16 = self.get_operand_address(opcode.mode);
        let value: u8 = self.mem_read(address);
        let result: u8 = value.wrapping_add(1);
        self.mem_write(address, result);
        self.update_zero_and_negative_flags(result);
        self.increment_program_counter(opcode.length);
    }

    fn inx(&mut self, opcode: &Opcode)
        requires
            opcode.length == 1,
        ensures
            final(self)@ == spec_inx(old(self)@),
            final(self).opcode_table@ == old(self).opcode_table@,
    {
        self.register_x = self.register_x.wrapping_add(1);
        self.update_zero_and_negative_flags(self.register_x);
        self.increment_program_counter(opcode.length);
    }

    fn iny(&mut self, opcode: &Opcode)
        requires
            opcode.length == 1,
        ensures
            final(self)@ == spec_iny(old(self)@),
            final(self).opcode_table@ == old(self).opcode_table@,
    {
        self.register_y = self.register_y.wrapping_add(1);
        self.update_zero_and_negative_flags(self.register_y);
        self.increment_program_counter(opcode.length);
    }

    fn lda(&mut self, opcode: &Opcode)
        requires
            old(self).mem_wf(),
            opcode.mode != AddressingMode::Implied,
            1 <= opcode.length,
        ensures
            final(self)@ == spec_lda(old(self)@, opcode.mode, opcode.length),
            final(self).opcode_table@ == old(self).opcode_table@,
    {
        let address: u16 = self.get_operand_address(opcode.mode);
        let value: u8 = self.mem_read(address);
        self.accumulator = value;
        self.update_zero_and_negative_flags(self.accumulator);
        self.increment_program_counter(opcode.length);
    }

    fn ldx(&mut self, opcode: &Opcode)
        requires
            old(self).mem_wf(),
            opcode.mode != AddressingMode::Implied,
            1 <= opcode.length,
        ensures
            final(self)@ == spec_ldx(old(self)@, opcode.mode, opcode.length),
            final(self).opcode_table@ == old(self).opcode_table@,
    {
        let address: u16 = self.get_operand_address(opcode.mode);
        let value: u8 = self.mem_read(address);
        self.register_x = value;
        self.update_zero_and_negative_flags(self.register_x);
        self.increment_program_counter(opcode.length);
    }

    fn ldy(&mut self, opcode: &Opcode)
        requires
            old(self).mem_wf(),
            opcode.mode != AddressingMode::Implied,
            1 <= opcode.length,
        ensures
            final(self)@ == spec_ldy(old(self)@, opcode.mode, opcode.length),
            final(self).opcode_table@ == old(self).opcode_table@,
    {
        let address: u16 = self.get_operand_address(opcode.mode);
        let value: u8 = self.mem_read(address);
        self.register_y = value;
        self.update_zero_and_negative_flags(self.register_y);
        self.increment_program_counter(opcode.length);
    }

    fn lsr(&mut self, opcode: &Opcode)
        requires
            old(self).mem_wf(),
            1 <= opcode.length,
        ensures
            final(self)@ == spec_lsr(old(self)@, opcode.mode, opcode.length),
            final(self).opcode_table@ == old(self).opcode_table@,
    {
        if opcode.mode == AddressingMode::Implied {
            let value: u8 = self.accumulator;
            let result: u8 = value >> 1;
            self.accumulator = result;
            if value & 0x01 != 0 {
                self.status.set(Status::CARRY);
            } else {
                self.status.reset(Status::CARRY);
            }
            self.update_zero_and_negative_flags(result);
        } else {
            let address: u16 = self.get_operand_address(opcode.mode);
            let value: u8 = self.mem_read(address);
            let result: u8 = value >> 1;
            self.mem_write(address, result);
            if value & 0x01 != 0 {
                self.status.set(Status::CARRY);
            } else {
                self.status.reset(Status::CARRY);
            }
            self.update_zero_and_negative_flags(result);
        }
        self.increment_program_counter(opcode.length);
    }

    fn nop(&self) {
    }

    fn ora(&mut self, opcode: &Opcode)
        requires
            old(self).mem_wf(),
            opcode.mode != AddressingMode::Implied,
            1 <= opcode.length,
        ensures
            final(self)@ == spec_ora(old(self)@, opcode.mode, opcode.length),
            final(self).opcode_table@ == old(self).opcode_table@,
    {
        let address: u16 = self.get_operand_address(opcode.mode);
        let value: u8 = self.mem_read(address);
        self.accumulator |= value;
        self.update_zero_and_negative_flags(self.accumulator);
        self.increment_program_counter(opcode.length);
    }

    fn pha(&mut self)
        requires
            old(self).mem_wf(),
            0x0100 < old(self).stack_pointer <= 0x01ff,
        ensures
            final(self)@ == spec_pha(old(self)@),
            final(self).opcode_table@ == old(self).opcode_table@,
    {
        self.push(self.accumulator);
    }

    fn php(&mut self)
        requires
            old(self).mem_wf(),
            0x0100 < old(self).stack_pointer <= 0x01ff,
        ensures
            final(self)@ == spec_php(old(self)@),
            final(self).opcode_table@ == old(self).opcode_table@,
    {
        self.push(self.status.get());
    }

    fn pla(&mut self)
        requires
            old(self).mem_wf(),
            0x0100 <= old(self).stack_pointer < 0x01ff,
        ensures
            final(self)@ == spec_pla(old(self)@),
            final(self).opcode_table@ == old(self).opcode_table@,
            final(self)@.a == pop8_value(old(self)@),
            final(self)@.sp == (old(self)@.sp + 1) as u16,
            final(self)@.p & Status::ZERO != 0 <==> pop8_value(old(self)@) == 0,
            final(self)@.p & Status::NEGATIV != 0 <==> pop8_value(old(self)@) & 0x80 != 0,
    {
        self.accumulator = self.pop();
        self.update_zero_and_negative_flags(self.accumulator);
    }

    fn plp(&mut self)
        requires
            old(self).mem_wf(),
            0x0100 <= old(self).stack_pointer < 0x01ff,
        ensures
            final(self)@ == spec_plp(old(self)@),
            final(self).opcode_table@ == old(self).opcode_table@,
            final(self)@.p == pop8_value(old(self)@),
            final(self)@.sp == (old(self)@.sp + 1) as u16,
    {
        let data: u8 = self.pop();
        self.status.insert(data);
    }

    fn rol(&mut self, opcode: &Opcode)
        requires
            old(self).mem_wf(),
            1 <= opcode.length,
        ensures
            final(self)@ == spec_rol(old(self)@, opcode.mode, opcode.length),
            final(self).opcode_table@ == old(self).opcode_table@,
    {
        if opcode.mode == AddressingMode::Implied {
            let value: u8 = self.accumulator;
            let result: u8 = (value << 1) | (self.status.get() & Status::CARRY);
            self.accumulator = result;
            if value & 0x80 != 0 {
                self.status.set(Status::CARRY);
            } else {
                self.status.reset(Status::CARRY);
            }
            self.update_zero_and_negative_flags(result);
        } else {
            let address: u16 = self.get_operand_address(opcode.mode);
            let value: u8 = self.mem_read(address);
            let result: u8 = (value << 1) | (self.status.get() & Status::CARRY);
            self.mem_write(address, result);
            if value & 0x80 != 0 {
                self.status.set(Status::CARRY);
            } else {
                self.status.reset(Status::CARRY);
            }
            self.update_zero_and_negative_flags(result);
        }
        self.increment_program_counter(opcode.length);
    }

    fn ror(&mut self, opcode: &Opcode)
        requires
            old(self).mem_wf(),
            1 <= opcode.length,
        ensures
            final(self)@ == spec_ror(old(self)@, opcode.mode, opcode.length),
            final(self).opcode_table@ == old(self).opcode_table@,
    {
        if opcode.mode == AddressingMode::Implied {
            let value: u8 = self.accumulator;
            let mut result: u8 = value >> 1;
            if self.status.get() & Status::CARRY == 1 {
                result |= 0x80;
            }
            self.accumulator = result;
            if value & 0x01 != 0 {
                self.status.set(Status::CARRY);
            } else {
                self.status.reset(Status::CARRY);
            }
            self.update_zero_and_negative_flags(result);
            proof {
                assert(result == ror_result(value, old(self)@.p));
            }
        } else {
            let address: u16 = self.get_operand_address(opcode.mode);
            let value: u8 = self.mem_read(address);
            let mut result: u8 = value >> 1;
            if self.status.get() & Status::CARRY == 1 {
                result |= 0x80;
            }
            self.mem_write(address, result);
            if value & 0x01 != 0 {
                self.status.set(Status::CARRY);
            } else {
                self.status.reset(Status::CARRY);
            }
            self.update_zero_and_negative_flags(result);
        }
        self.increment_program_counter(opcode.length);
    }

    fn sbc(&mut self, opcode: &Opcode)
        requires
            old(self).mem_wf(),
            opcode.mode != AddressingMode::Implied,
            1 <= opcode.length,
        ensures
            final(self)@ == spec_sbc(old(self)@, opcode.mode, opcode.length),
            final(self).opcode_table@ == old(self).opcode_table@,
    {
        let address: u16 = self.get_operand_address(opcode.mode);
        let value: u8 = self.mem_read(address);
        self.add_to_accumulator(value ^ 0xff);
        self.update_zero_and_negative_flags(self.accumulator);
        self.increment_program_counter(opcode.length);
    }

    fn sta(&mut self, opcode: &Opcode)
        requires
            old(self).mem_wf(),
            opcode.mode != AddressingMode::Implied,
            1 <= opcode.length,
        ensures
            final(self)@ == spec_sta(old(self)@, opcode.mode, opcode.length),
            final(self).opcode_table@ == old(self).opcode_table@,
            final(self)@.p == old(self)@.p,
            final(self)@.a == old(self)@.a,
            final(self)@.x == old(self)@.x,
            final(self)@.y == old(self)@.y,
            final(self)@.sp == old(self)@.sp,
            final(self)@.pc == old(self)@.pc.wrapping_add((opcode.length - 1) as u16),
            rd8(final(self)@.mem, operand_addr(old(self)@, opcode.mode)) == old(self).accumulator,
            forall|a: u16|
                a != operand_addr(old(self)@, opcode.mode) ==> #[trigger] rd8(final(self)@.mem, a)
                    == rd8(old(self)@.mem, a),
    {
        let address: u16 = self.get_operand_address(opcode.mode);
        self.mem_write(address, self.accumulator);
        self.increment_program_counter(opcode.length);
    }

    fn stx(&mut self, opcode: &Opcode)
        requires
            old(self).mem_wf(),
            opcode.mode != AddressingMode::Implied,
            1 <= opcode.length,
        ensures
            final(self)@ == spec_stx(old(self)@, opcode.mode, opcode.length),
            final(self).opcode_table@ == old(self).opcode_table@,
            final(self)@.p == old(self)@.p,
            final(self)@.a == old(self)@.a,
            final(self)@.x == old(self)@.x,
            final(self)@.y == old(self)@.y,
            final(self)@.sp == old(self)@.sp,
            final(self)@.pc == old(self)@.pc.wrapping_add((opcode.length - 1) as u16),
            rd8(final(self)@.mem, operand_addr(old(self)@, opcode.mode)) == old(self).register_x,
            forall|a: u16|
                a != operand_addr(old(self)@, opcode.mode) ==> #[trigger] rd8(final(self)@.mem, a)
                    == rd8(old(self)@.mem, a),
    {
        let address: u16 = self.get_operand_address(opcode.mode);
        self.mem_write(address, self.register_x);
        self.increment_program_counter(opcode.length);
    }

    fn sty(&mut self, opcode: &Opcode)
        requires
            old(self).mem_wf(),
            opcode.mode != AddressingMode::Implied,
            1 <= opcode.length,
        ensures
            final(self)@ == spec_sty(old(self)@, opcode.mode, opcode.length),
            final(self).opcode_table@ == old(self).opcode_table@,
            final(self)@.p == old(self)@.p,
            final(self)@.a == old(self)@.a,
            final(self)@.x == old(self)@.x,
            final(self)@.y == old(self)@.y,
            final(self)@.sp == old(self)@.sp,
            final(self)@.pc == old(self)@.pc.wrapping_add((opcode.length - 1) as u16),
            rd8(final(self)@.mem, operand_addr(old(self)@, opcode.mode)) == old(self).register_y,
            forall|a: u16|
                a != operand_addr(old(self)@, opcode.mode) ==> #[trigger] rd8(final(self)@.mem, a)
                    == rd8(old(self)@.mem, a),
    {
        let address: u16 = self.get_operand_address(opcode.mode);
        self.mem_write(address, self.register_y);
        self.increment_program_counter(opcode.length);
    }

    fn tax(&mut self)
        ensures
            final(self)@ == spec_tax(old(self)@),
            final(self).opcode_table@ == old(self).opcode_table@,
    {
        self.register_x = self.accumulator;
        self.update_zero_and_negative_flags(self.register_x);
    }

    fn tay(&mut self)
        ensures
            final(self)@ == spec_tay(old(self)@),
            final(self).opcode_table@ == old(self).opcode_table@,
    {
        self.register_y = self.accumulator;
        self.update_zero_and_negative_flags(self.register_y);
    }

    fn tsx(&mut self)
        ensures
            final(self)@ == spec_tsx(old(self)@),
            final(self).opcode_table@ == old(self).opcode_table@,
    {
        self.register_x = #[verifier::truncate] (self.stack_pointer as u8);
        self.update_zero_and_negative_flags(self.register_x);
    }

    fn txa(&mut self)
        ensures
            final(self)@ == spec_txa(old(self)@),
            final(self).opcode_table@ == old(self).opcode_table@,
    {
        self.accumulator = self.register_x;
        self.update_zero_and_negative_flags(self.accumulator);
    }

    fn txs(&mut self)
        ensures
            final(self)@ == spec_txs(old(self)@),
            final(self).opcode_table@ == old(self).opcode_table@,
    {
        self.stack_pointer = (self.register_x as u16) | 0x100;
    }

    fn tya(&mut self)
        ensures
            final(self)@ == spec_tya(old(self)@),
            final(self).opcode_table@ == old(self).opcode_table@,
    {
        self.accumulator = self.register_y;
        self.update_zero_and_negative_flags(self.accumulator);
    }

    /// The shared N/Z rule: `Z` mirrors `result == 0`, `N` mirrors bit 7 of
    /// `result`; no other flag bit and no other part of the machine moves.
    fn update_zero_and_negative_flags(&mut self, result: u8)
        ensures
            final(self)@ == (Machine { p: set_nz(old(self)@.p, result), ..old(self)@ }),
            final(self).opcode_table@ == old(self).opcode_table@,
            final(self)@.p & Status::ZERO != 0 <==> result == 0,
            final(self)@.p & Status::NEGATIV != 0 <==> result & 0x80 != 0,
            final(self)@.p & !(Status::ZERO | Status::NEGATIV) == old(self)@.p & !(Status::ZERO
                | Status::NEGATIV),
    {
        proof {
            crate::laws::lemma_nz_flags(self.status@, result);
        }
        if result == 0 {
            self.status.set(Status::ZERO);
        } else {
            self.status.reset(Status::ZERO);
        }
        if result & 0b1000_0000 != 0 {
            self.status.set(Status::NEGATIV);
        } else {
            self.status.reset(Status::NEGATIV);
        }
    }

    /// Add-with-carry into the accumulator: `C` takes the 8-bit carry-out,
    /// `V` the signed overflow. `N`/`Z` are left to the caller.
    fn add_to_accumulator(&mut self, data: u8)
        ensures
            final(self)@ == add_machine(old(self)@, data),
            final(self).opcode_table@ == old(self).opcode_table@,
    {
        let carry: u16 = if self.status.get() & 0x01 == 1 {
            1
        } else {
            0
        };
        let sum: u16 = self.accumulator as u16 + data as u16 + carry;

        if sum > 0xff {
            self.status.set(Status::CARRY);
        } else {
            self.status.reset(Status::CARRY);
        }

        let result: u8 = #[verifier::truncate] (sum as u8);

        if (data ^ result) & (result ^ self.accumulator) & 0x80 != 0 {
            self.status.set(Status::OVERFLOW);
        } else {
            self.status.reset(Status::OVERFLOW);
        }

        self.accumulator = result;
    }

    /// The shared comparison rule: `C` mirrors `register >= value`
    /// (unsigned), `N`/`Z` come from the wrapped difference.
    fn compare(&mut self, opcode: &Opcode, register: u8)
        requires
            old(self).mem_wf(),
            opcode.mode != AddressingMode::Implied,
            1 <= opcode.length,
        ensures
            final(self)@ == spec_cmp_with(old(self)@, opcode.mode, opcode.length, register),
            final(self).opcode_table@ == old(self).opcode_table@,
    {
        let address: u16 = self.get_operand_address(opcode.mode);
        let value: u8 = self.mem_read(address);

        if register >= value {
            self.status.set(Status::CARRY);
        } else {
            self.status.reset(Status::CARRY);
        }

        self.update_zero_and_negative_flags(register.wrapping_sub(value));
        self.increment_program_counter(opcode.length);
    }

    /// Builds the 256-entry opcode descriptor table; every entry is proved
    /// to agree with the mathematical decode table.
    pub fn create_opcode_table() -> (t: Vec<Opcode>)
        ensures
            table_wf(t@),
    {
        let mut t: Vec<Opcode> = Vec::new();
        let mut i: usize = 0;
        while i < 256
            invariant
                i <= 256,
                t@.len() == i,
                forall|j: int| 0 <= j < i ==> #[trigger] entry_ok(t@[j], j as u8),
            decreases 256 - i,
        {
            t.push(Opcode::descriptor(i as u8));
            i = i + 1;
        }
        proof {
            assert forall|code: u8| #[trigger] entry_ok(t@[code as int], code) by {
                assert(entry_ok(t@[code as int], (code as int) as u8));
            }
        }
        t
    }
}

} // verus!
