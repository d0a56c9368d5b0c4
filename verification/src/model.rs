//! The mathematical machine model.
//!
//! Everything here is specification-level: a ghost [`Machine`] records the
//! architectural state, and spec functions give the meaning of memory
//! accesses, flag updates, addressing modes, the opcode descriptor table and
//! each instruction. [`spec_exec`] is the one-instruction semantics,
//! [`spec_step`] adds the opcode fetch, and [`reaches`] is the multi-step
//! closure that the fetch loop is proved against. The executable code in
//! [`crate::cpu`] and [`crate::opcodes`] is proved to implement these
//! definitions.

use crate::opcodes::Opcode;
use crate::status::Status;
use vstd::prelude::*;

verus! {

/// The addressing mode of an opcode: how the operand bytes after the opcode
/// byte are turned into an effective address. `Implied` covers register-only
/// and accumulator-target forms, which have no operand bytes.
#[derive(Debug, Clone, Copy, PartialEq, Eq, Structural)]
pub enum AddressingMode {
    Immediate,
    ZeroPage,
    ZeroPageX,
    Absolute,
    AbsoluteX,
    AbsoluteY,
    IndirectX,
    IndirectY,
    Implied,
}

/// A condition that aborts a run. No fault is recoverable inside the core;
/// each surfaces to the host through the `Result` of the fetch loop.
#[derive(Debug, Clone, Copy, PartialEq, Eq, Structural)]
pub enum Fault {
    /// The fetched byte has no populated entry in the opcode table.
    UnknownOpcode(u8),
    /// A push would move the stack pointer below `0x0100`.
    StackOverflow,
    /// A pop would move the stack pointer above `0x01FF`.
    StackUnderflow,
    /// The fetch loop ran out of its step budget of `u64::MAX`
    /// instructions before the program halted. No realizable program run
    /// reaches this; it exists because the fetch loop is proved to
    /// terminate.
    StepLimit,
}

/// The architectural state of the processor: the ghost counterpart of
/// [`crate::cpu::CPU`].
#[verifier::ext_equal]
pub ghost struct Machine {
    pub a: u8,
    pub x: u8,
    pub y: u8,
    pub sp: u16,
    pub pc: u16,
    pub p: u8,
    pub mem: Seq<u8>,
}

/// A machine state that the executable code maintains: full 64 KiB of memory
/// and a stack pointer inside the stack page `0x0100..=0x01FF`.
pub open spec fn machine_wf(m: Machine) -> bool {
    &&& m.mem.len() == 0x10000
    &&& 0x0100 <= m.sp <= 0x01ff
}

// ---------------------------------------------------------------------------
// Memory
// ---------------------------------------------------------------------------

/// The byte at `addr`.
pub open spec fn rd8(mem: Seq<u8>, addr: u16) -> u8 {
    mem[addr as int]
}

/// The little-endian 16-bit word at `addr`; the high byte sits at
/// `addr + 1` with 16-bit wrap-around.
pub open spec fn rd16(mem: Seq<u8>, addr: u16) -> u16 {
    ((rd8(mem, addr.wrapping_add(1)) as u16) << 8) | (rd8(mem, addr) as u16)
}

/// Memory with the byte at `addr` replaced by `v`.
pub open spec fn wr8(mem: Seq<u8>, addr: u16, v: u8) -> Seq<u8> {
    mem.update(addr as int, v)
}

/// Memory with the little-endian 16-bit word at `addr` replaced by `v`:
/// low byte at `addr`, high byte at `addr + 1` with 16-bit wrap-around.
pub open spec fn wr16(mem: Seq<u8>, addr: u16, v: u16) -> Seq<u8> {
    wr8(wr8(mem, addr, (v & 0xff) as u8), addr.wrapping_add(1), (v >> 8) as u8)
}

/// Writing a 16-bit word and reading it back at the same (non-wrapping)
/// address yields the word that was written.
pub proof fn lemma_wr16_rd16(mem: Seq<u8>, addr: u16, v: u16)
    requires
        mem.len() == 0x10000,
        addr < 0xffff,
    ensures
        rd16(wr16(mem, addr, v), addr) == v,
{
    let lo = (v & 0xff) as u8;
    let hi = (v >> 8) as u8;
    assert(rd8(wr16(mem, addr, v), addr) == lo);
    assert(rd8(wr16(mem, addr, v), addr.wrapping_add(1)) == hi);
    assert((((hi as u16) << 8) | (lo as u16)) == v) by (bit_vector)
        requires
            lo == (v & 0xff) as u8,
            hi == (v >> 8) as u8,
    ;
}

/// Memory with the program image copied to the load base `0x8000`.
pub open spec fn mem_with_program(mem: Seq<u8>, prog: Seq<u8>) -> Seq<u8> {
    Seq::new(
        0x10000,
        |i: int|
            if 0x8000 <= i < 0x8000 + prog.len() {
                prog[i - 0x8000]
            } else {
                mem[i]
            },
    )
}

/// Memory after a load: the program image at the load base, and the reset
/// vector at `0xFFFC` pointing at that base.
pub open spec fn loaded_mem(mem: Seq<u8>, prog: Seq<u8>) -> Seq<u8> {
    wr16(mem_with_program(mem, prog), 0xfffc, 0x8000)
}

/// The machine a load followed by a reset produces: registers and flags
/// clear, stack pointer at `0x01FD`, and the program counter at the load
/// base, where the reset vector points.
pub open spec fn boot_machine(mem: Seq<u8>, prog: Seq<u8>) -> Machine {
    Machine { a: 0, x: 0, y: 0, sp: 0x01fd, pc: 0x8000, p: 0, mem: loaded_mem(mem, prog) }
}

/// The machine a load without a reset produces: registers, flags and stack
/// pointer kept, the program image in place, and the program counter at
/// the load base.
pub open spec fn seeded_boot_machine(m0: Machine, prog: Seq<u8>) -> Machine {
    Machine { pc: 0x8000, mem: loaded_mem(m0.mem, prog), ..m0 }
}

// ---------------------------------------------------------------------------
// Flags
// ---------------------------------------------------------------------------

/// True when at least one bit of `mask` is set in `p`.
pub open spec fn flag_set(p: u8, mask: u8) -> bool {
    p & mask != 0
}

/// `p` with the bits of `mask` forced to `on`.
pub open spec fn set_flag(p: u8, mask: u8, on: bool) -> u8 {
    if on {
        p | mask
    } else {
        p & !mask
    }
}

/// The shared N/Z rule: `Z` mirrors `r == 0`, `N` mirrors bit 7 of `r`.
pub open spec fn set_nz(p: u8, r: u8) -> u8 {
    set_flag(set_flag(p, Status::ZERO, r == 0), Status::NEGATIV, r & 0x80 != 0)
}

/// The carry flag read as an addend.
pub open spec fn carry_in(p: u8) -> int {
    if p & Status::CARRY == 1 {
        1
    } else {
        0
    }
}

// ---------------------------------------------------------------------------
// Addressing
// ---------------------------------------------------------------------------

/// The effective address of an operand, given a machine whose program
/// counter points at the operand byte(s) -- not at the opcode byte.
/// The executor never resolves `Implied` forms; for totality that case
/// is mapped to address zero.
pub open spec fn operand_addr(m: Machine, mode: AddressingMode) -> u16 {
    match mode {
        AddressingMode::Immediate => m.pc,
        AddressingMode::ZeroPage => rd8(m.mem, m.pc) as u16,
        AddressingMode::ZeroPageX => rd8(m.mem, m.pc).wrapping_add(m.x) as u16,
        AddressingMode::Absolute => rd16(m.mem, m.pc),
        AddressingMode::AbsoluteX => rd16(m.mem, m.pc).wrapping_add(m.x as u16),
        AddressingMode::AbsoluteY => rd16(m.mem, m.pc).wrapping_add(m.y as u16),
        AddressingMode::IndirectX => {
            let ptr = rd8(m.mem, m.pc).wrapping_add(m.x);
            ((rd8(m.mem, ptr.wrapping_add(1) as u16) as u16) << 8) | (rd8(m.mem, ptr as u16)
                as u16)
        },
        AddressingMode::IndirectY => {
            let base = rd8(m.mem, m.pc);
            let deref = ((rd8(m.mem, base.wrapping_add(1) as u16) as u16) << 8) | (rd8(
                m.mem,
                base as u16,
            ) as u16);
            deref.wrapping_add(m.y as u16)
        },
        AddressingMode::Implied => 0,
    }
}

// ---------------------------------------------------------------------------
// Shared instruction helpers
// ---------------------------------------------------------------------------

/// Program-counter advance over the operand bytes: the fetch already moved
/// the counter past the opcode byte, so an instruction of `len` bytes moves
/// it by `len - 1` more, wrapping within 16 bits.
pub open spec fn advance_pc(m: Machine, len: u8) -> Machine {
    Machine { pc: m.pc.wrapping_add((len - 1) as u16), ..m }
}

/// Accumulator after add-with-carry, as a mathematical sum.
pub open spec fn add_sum(a: u8, v: u8, p: u8) -> int {
    a + v + carry_in(p)
}

/// Accumulator after add-with-carry, truncated to 8 bits.
pub open spec fn add_result(a: u8, v: u8, p: u8) -> u8 {
    add_sum(a, v, p) as u8
}

/// Status after add-with-carry: `C` mirrors the 8-bit carry-out, `V` the
/// signed overflow `((v ^ r) & (r ^ a) & 0x80) != 0`. `N`/`Z` are not
/// touched here; every user applies [`set_nz`] on the result afterwards.
pub open spec fn add_status(a: u8, v: u8, p: u8) -> u8 {
    let r = add_result(a, v, p);
    let p1 = set_flag(p, Status::CARRY, add_sum(a, v, p) > 0xff);
    set_flag(p1, Status::OVERFLOW, (v ^ r) & (r ^ a) & 0x80 != 0)
}

/// The whole-machine effect of add-with-carry on the accumulator.
pub open spec fn add_machine(m: Machine, v: u8) -> Machine {
    Machine { a: add_result(m.a, v, m.p), p: add_status(m.a, v, m.p), ..m }
}

/// One push: the byte lands at the stack pointer, which then moves down.
pub open spec fn spec_push8(m: Machine, v: u8) -> Machine {
    Machine { mem: wr8(m.mem, m.sp, v), sp: (m.sp - 1) as u16, ..m }
}

/// A 16-bit push: high byte first, so that a later 16-bit pop reads the
/// value back little-endian.
pub open spec fn spec_push16(m: Machine, v: u16) -> Machine {
    spec_push8(spec_push8(m, (v >> 8) as u8), (v & 0xff) as u8)
}

/// The byte a pop returns: the stack pointer moves up first, then the byte
/// at the new stack pointer is read.
pub open spec fn pop8_value(m: Machine) -> u8 {
    rd8(m.mem, (m.sp + 1) as u16)
}

/// The word a 16-bit pop returns: low byte first, then high byte.
pub open spec fn pop16_value(m: Machine) -> u16 {
    ((rd8(m.mem, (m.sp + 2) as u16) as u16) << 8) | (rd8(m.mem, (m.sp + 1) as u16) as u16)
}

// ---------------------------------------------------------------------------
// Instruction semantics
// ---------------------------------------------------------------------------
//
// Each `spec_*` below gives the whole-machine effect of one instruction on a
// machine whose program counter points at the operand byte(s). Instructions
// with operand bytes take the addressing mode and the instruction length;
// one-byte instructions take neither and leave the program counter alone.

pub open spec fn spec_lda(m: Machine, mode: AddressingMode, len: u8) -> Machine {
    let v = rd8(m.mem, operand_addr(m, mode));
    advance_pc(Machine { a: v, p: set_nz(m.p, v), ..m }, len)
}

pub open spec fn spec_ldx(m: Machine, mode: AddressingMode, len: u8) -> Machine {
    let v = rd8(m.mem, operand_addr(m, mode));
    advance_pc(Machine { x: v, p: set_nz(m.p, v), ..m }, len)
}

pub open spec fn spec_ldy(m: Machine, mode: AddressingMode, len: u8) -> Machine {
    let v = rd8(m.mem, operand_addr(m, mode));
    advance_pc(Machine { y: v, p: set_nz(m.p, v), ..m }, len)
}

pub open spec fn spec_sta(m: Machine, mode: AddressingMode, len: u8) -> Machine {
    advance_pc(Machine { mem: wr8(m.mem, operand_addr(m, mode), m.a), ..m }, len)
}

pub open spec fn spec_stx(m: Machine, mode: AddressingMode, len: u8) -> Machine {
    advance_pc(Machine { mem: wr8(m.mem, operand_addr(m, mode), m.x), ..m }, len)
}

pub open spec fn spec_sty(m: Machine, mode: AddressingMode, len: u8) -> Machine {
    advance_pc(Machine { mem: wr8(m.mem, operand_addr(m, mode), m.y), ..m }, len)
}

pub open spec fn spec_adc(m: Machine, mode: AddressingMode, len: u8) -> Machine {
    let v = rd8(m.mem, operand_addr(m, mode));
    let m1 = add_machine(m, v);
    advance_pc(Machine { p: set_nz(m1.p, m1.a), ..m1 }, len)
}

/// Standard 6502 subtract-with-borrow: add the one's complement of the
/// operand, with the current carry as borrow-in.
pub open spec fn spec_sbc(m: Machine, mode: AddressingMode, len: u8) -> Machine {
    let v = rd8(m.mem, operand_addr(m, mode));
    let m1 = add_machine(m, v ^ 0xff);
    advance_pc(Machine { p: set_nz(m1.p, m1.a), ..m1 }, len)
}

pub open spec fn spec_and(m: Machine, mode: AddressingMode, len: u8) -> Machine {
    let r = m.a & rd8(m.mem, operand_addr(m, mode));
    advance_pc(Machine { a: r, p: set_nz(m.p, r), ..m }, len)
}

pub open spec fn spec_ora(m: Machine, mode: AddressingMode, len: u8) -> Machine {
    let r = m.a | rd8(m.mem, operand_addr(m, mode));
    advance_pc(Machine { a: r, p: set_nz(m.p, r), ..m }, len)
}

pub open spec fn spec_eor(m: Machine, mode: AddressingMode, len: u8) -> Machine {
    let r = m.a ^ rd8(m.mem, operand_addr(m, mode));
    advance_pc(Machine { a: r, p: set_nz(m.p, r), ..m }, len)
}

/// Shared comparison rule: `C` mirrors `reg >= v` (unsigned), `N`/`Z` come
/// from the wrapped difference. Registers and memory stay unchanged.
pub open spec fn spec_cmp_with(m: Machine, mode: AddressingMode, len: u8, reg: u8) -> Machine {
    let v = rd8(m.mem, operand_addr(m, mode));
    let p1 = set_flag(m.p, Status::CARRY, reg >= v);
    advance_pc(Machine { p: set_nz(p1, reg.wrapping_sub(v)), ..m }, len)
}

/// Shift left: `C` takes the old bit 7. The operand is the accumulator for
/// the `Implied` form, else the byte at the effective address, written back
/// in place.
pub open spec fn spec_asl(m: Machine, mode: AddressingMode, len: u8) -> Machine {
    if mode == AddressingMode::Implied {
        let v = m.a;
        let r = (v << 1) as u8;
        advance_pc(Machine { a: r, p: set_nz(set_flag(m.p, Status::CARRY, v & 0x80 != 0), r), ..m }, len)
    } else {
        let ea = operand_addr(m, mode);
        let v = rd8(m.mem, ea);
        let r = (v << 1) as u8;
        advance_pc(
            Machine {
                mem: wr8(m.mem, ea, r),
                p: set_nz(set_flag(m.p, Status::CARRY, v & 0x80 != 0), r),
                ..m
            },
            len,
        )
    }
}

/// Shift right: `C` takes the old bit 0.
pub open spec fn spec_lsr(m: Machine, mode: AddressingMode, len: u8) -> Machine {
    if mode == AddressingMode::Implied {
        let v = m.a;
        let r = v >> 1;
        advance_pc(Machine { a: r, p: set_nz(set_flag(m.p, Status::CARRY, v & 0x01 != 0), r), ..m }, len)
    } else {
        let ea = operand_addr(m, mode);
        let v = rd8(m.mem, ea);
        let r = v >> 1;
        advance_pc(
            Machine {
                mem: wr8(m.mem, ea, r),
                p: set_nz(set_flag(m.p, Status::CARRY, v & 0x01 != 0), r),
                ..m
            },
            len,
        )
    }
}

/// Nine-bit rotate left through `C`: the old carry enters at bit 0, the old
/// bit 7 becomes the new carry.
pub open spec fn spec_rol(m: Machine, mode: AddressingMode, len: u8) -> Machine {
    if mode == AddressingMode::Implied {
        let v = m.a;
        let r = ((v << 1) | (m.p & Status::CARRY)) as u8;
        advance_pc(Machine { a: r, p: set_nz(set_flag(m.p, Status::CARRY, v & 0x80 != 0), r), ..m }, len)
    } else {
        let ea = operand_addr(m, mode);
        let v = rd8(m.mem, ea);
        let r = ((v << 1) | (m.p & Status::CARRY)) as u8;
        advance_pc(
            Machine {
                mem: wr8(m.mem, ea, r),
                p: set_nz(set_flag(m.p, Status::CARRY, v & 0x80 != 0), r),
                ..m
            },
            len,
        )
    }
}

/// The byte a rotate right produces: the old carry of `p` enters at bit 7.
pub open spec fn ror_result(v: u8, p: u8) -> u8 {
    if p & Status::CARRY == 1 {
        (v >> 1) | 0x80
    } else {
        v >> 1
    }
}

/// Nine-bit rotate right through `C`: the old carry enters at bit 7, the
/// old bit 0 becomes the new carry.
pub open spec fn spec_ror(m: Machine, mode: AddressingMode, len: u8) -> Machine {
    if mode == AddressingMode::Implied {
        let v = m.a;
        let r = ror_result(v, m.p);
        advance_pc(Machine { a: r, p: set_nz(set_flag(m.p, Status::CARRY, v & 0x01 != 0), r), ..m }, len)
    } else {
        let ea = operand_addr(m, mode);
        let v = rd8(m.mem, ea);
        let r = ror_result(v, m.p);
        advance_pc(
            Machine {
                mem: wr8(m.mem, ea, r),
                p: set_nz(set_flag(m.p, Status::CARRY, v & 0x01 != 0), r),
                ..m
            },
            len,
        )
    }
}

pub open spec fn spec_inc(m: Machine, mode: AddressingMode, len: u8) -> Machine {
    let ea = operand_addr(m, mode);
    let r = rd8(m.mem, ea).wrapping_add(1);
    advance_pc(Machine { mem: wr8(m.mem, ea, r), p: set_nz(m.p, r), ..m }, len)
}

pub open spec fn spec_dec(m: Machine, mode: AddressingMode, len: u8) -> Machine {
    let ea = operand_addr(m, mode);
    let r = rd8(m.mem, ea).wrapping_sub(1);
    advance_pc(Machine { mem: wr8(m.mem, ea, r), p: set_nz(m.p, r), ..m }, len)
}

pub open spec fn spec_inx(m: Machine) -> Machine {
    let r = m.x.wrapping_add(1);
    Machine { x: r, p: set_nz(m.p, r), ..m }
}

pub open spec fn spec_iny(m: Machine) -> Machine {
    let r = m.y.wrapping_add(1);
    Machine { y: r, p: set_nz(m.p, r), ..m }
}

pub open spec fn spec_dex(m: Machine) -> Machine {
    let r = m.x.wrapping_sub(1);
    Machine { x: r, p: set_nz(m.p, r), ..m }
}

pub open spec fn spec_dey(m: Machine) -> Machine {
    let r = m.y.wrapping_sub(1);
    Machine { y: r, p: set_nz(m.p, r), ..m }
}

pub open spec fn spec_tax(m: Machine) -> Machine {
    Machine { x: m.a, p: set_nz(m.p, m.a), ..m }
}

pub open spec fn spec_tay(m: Machine) -> Machine {
    Machine { y: m.a, p: set_nz(m.p, m.a), ..m }
}

/// Transfer stack pointer to X: the low byte of the stack pointer.
pub open spec fn spec_tsx(m: Machine) -> Machine {
    let r = m.sp as u8;
    Machine { x: r, p: set_nz(m.p, r), ..m }
}

pub open spec fn spec_txa(m: Machine) -> Machine {
    Machine { a: m.x, p: set_nz(m.p, m.x), ..m }
}

/// Transfer X to the low byte of the stack pointer. No flags change.
pub open spec fn spec_txs(m: Machine) -> Machine {
    Machine { sp: (m.x as u16) | 0x100, ..m }
}

pub open spec fn spec_tya(m: Machine) -> Machine {
    Machine { a: m.y, p: set_nz(m.p, m.y), ..m }
}

pub open spec fn spec_pha(m: Machine) -> Machine {
    spec_push8(m, m.a)
}

pub open spec fn spec_php(m: Machine) -> Machine {
    spec_push8(m, m.p)
}

pub open spec fn spec_pla(m: Machine) -> Machine {
    let v = pop8_value(m);
    Machine { a: v, p: set_nz(m.p, v), sp: (m.sp + 1) as u16, ..m }
}

pub open spec fn spec_plp(m: Machine) -> Machine {
    Machine { p: pop8_value(m), sp: (m.sp + 1) as u16, ..m }
}

pub open spec fn spec_clc(m: Machine) -> Machine {
    Machine { p: m.p & !Status::CARRY, ..m }
}

pub open spec fn spec_sec(m: Machine) -> Machine {
    Machine { p: m.p | Status::CARRY, ..m }
}

pub open spec fn spec_cld(m: Machine) -> Machine {
    Machine { p: m.p & !Status::DECIMAL_MODE, ..m }
}

pub open spec fn spec_sed(m: Machine) -> Machine {
    Machine { p: m.p | Status::DECIMAL_MODE, ..m }
}

pub open spec fn spec_cli(m: Machine) -> Machine {
    Machine { p: m.p & !Status::INTERRUPT_DISABLE, ..m }
}

pub open spec fn spec_sei(m: Machine) -> Machine {
    Machine { p: m.p | Status::INTERRUPT_DISABLE, ..m }
}

pub open spec fn spec_clv(m: Machine) -> Machine {
    Machine { p: m.p & !Status::OVERFLOW, ..m }
}

// ---------------------------------------------------------------------------
// The opcode descriptor table
// ---------------------------------------------------------------------------

/// The instruction a populated opcode byte decodes to; `Undefined` marks the
/// unpopulated entries, which are fatal to execute.
pub ghost enum Kind {
    Adc,
    And,
    Asl,
    Brk,
    Clc,
    Cld,
    Cli,
    Clv,
    Cmp,
    Cpx,
    Cpy,
    Dec,
    Dex,
    Dey,
    Eor,
    Inc,
    Inx,
    Iny,
    Lda,
    Ldx,
    Ldy,
    Lsr,
    Nop,
    Ora,
    Pha,
    Php,
    Pla,
    Plp,
    Rol,
    Ror,
    Sbc,
    Sec,
    Sed,
    Sei,
    Sta,
    Stx,
    Sty,
    Tax,
    Tay,
    Tsx,
    Txa,
    Txs,
    Tya,
    Undefined,
}

/// The ghost descriptor of one opcode byte: which instruction it is, its
/// mnemonic, its length in bytes, its nominal cycle count, and its
/// addressing mode.
pub ghost struct OpInfo {
    pub kind: Kind,
    pub mnemonic: &'static str,
    pub len: u8,
    pub cycles: u8,
    pub mode: AddressingMode,
}

pub open spec fn info(
    kind: Kind,
    mnemonic: &'static str,
    len: u8,
    cycles: u8,
    mode: AddressingMode,
) -> OpInfo {
    OpInfo { kind, mnemonic, len, cycles, mode }
}

/// The full 256-entry decode table as a mathematical function. Unlisted
/// bytes map to `Undefined` with length zero.
pub open spec fn opcode_info(code: u8) -> OpInfo {
    match code {
        0x00 => info(Kind::Brk, "BRK", 1, 7, AddressingMode::Implied),
        0x69 => info(Kind::Adc, "ADC", 2, 2, AddressingMode::Immediate),
        0x65 => info(Kind::Adc, "ADC", 2, 3, AddressingMode::ZeroPage),
        0x75 => info(Kind::Adc, "ADC", 2, 4, AddressingMode::ZeroPageX),
        0x6d => info(Kind::Adc, "ADC", 3, 4, AddressingMode::Absolute),
        0x7d => info(Kind::Adc, "ADC", 3, 4, AddressingMode::AbsoluteX),
        0x79 => info(Kind::Adc, "ADC", 3, 4, AddressingMode::AbsoluteY),
        0x61 => info(Kind::Adc, "ADC", 2, 6, AddressingMode::IndirectX),
        0x71 => info(Kind::Adc, "ADC", 2, 5, AddressingMode::IndirectY),
        0x29 => info(Kind::And, "AND", 2, 2, AddressingMode::Immediate),
        0x25 => info(Kind::And, "AND", 2, 3, AddressingMode::ZeroPage),
        0x35 => info(Kind::And, "AND", 2, 4, AddressingMode::ZeroPageX),
        0x2d => info(Kind::And, "AND", 3, 4, AddressingMode::Absolute),
        0x3d => info(Kind::And, "AND", 3, 4, AddressingMode::AbsoluteX),
        0x39 => info(Kind::And, "AND", 3, 4, AddressingMode::AbsoluteY),
        0x21 => info(Kind::And, "AND", 2, 6, AddressingMode::IndirectX),
        0x31 => info(Kind::And, "AND", 2, 5, AddressingMode::IndirectY),
        0x0a => info(Kind::Asl, "ASL", 1, 2, AddressingMode::Implied),
        0x06 => info(Kind::Asl, "ASL", 2, 5, AddressingMode::ZeroPage),
        0x16 => info(Kind::Asl, "ASL", 2, 6, AddressingMode::ZeroPageX),
        0x0e => info(Kind::Asl, "ASL", 3, 6, AddressingMode::Absolute),
        0x1e => info(Kind::Asl, "ASL", 3, 7, AddressingMode::AbsoluteX),
        0x18 => info(Kind::Clc, "CLC", 1, 2, AddressingMode::Implied),
        0xd8 => info(Kind::Cld, "CLD", 1, 2, AddressingMode::Implied),
        0x58 => info(Kind::Cli, "CLI", 1, 2, AddressingMode::Implied),
        0xb8 => info(Kind::Clv, "CLV", 1, 2, AddressingMode::Implied),
        0xc9 => info(Kind::Cmp, "CMP", 2, 2, AddressingMode::Immediate),
        0xc5 => info(Kind::Cmp, "CMP", 2, 3, AddressingMode::ZeroPage),
        0xd5 => info(Kind::Cmp, "CMP", 2, 4, AddressingMode::ZeroPageX),
        0xcd => info(Kind::Cmp, "CMP", 3, 4, AddressingMode::Absolute),
        0xdd => info(Kind::Cmp, "CMP", 3, 4, AddressingMode::AbsoluteX),
        0xd9 => info(Kind::Cmp, "CMP", 3, 4, AddressingMode::AbsoluteY),
        0xc1 => info(Kind::Cmp, "CMP", 2, 6, AddressingMode::IndirectX),
        0xd1 => info(Kind::Cmp, "CMP", 2, 5, AddressingMode::IndirectY),
        0xe0 => info(Kind::Cpx, "CPX", 2, 2, AddressingMode::Immediate),
        0xe4 => info(Kind::Cpx, "CPX", 2, 3, AddressingMode::ZeroPage),
        0xec => info(Kind::Cpx, "CPX", 3, 4, AddressingMode::Absolute),
        0xc0 => info(Kind::Cpy, "CPY", 2, 2, AddressingMode::Immediate),
        0xc4 => info(Kind::Cpy, "CPY", 2, 3, AddressingMode::ZeroPage),
        0xcc => info(Kind::Cpy, "CPY", 3, 4, AddressingMode::Absolute),
        0xc6 => info(Kind::Dec, "DEC", 2, 5, AddressingMode::ZeroPage),
        0xd6 => info(Kind::Dec, "DEC", 2, 6, AddressingMode::ZeroPageX),
        0xce => info(Kind::Dec, "DEC", 3, 6, AddressingMode::Absolute),
        0xde => info(Kind::Dec, "DEC", 3, 7, AddressingMode::AbsoluteX),
        0xca => info(Kind::Dex, "DEX", 1, 2, AddressingMode::Implied),
        0x88 => info(Kind::Dey, "DEY", 1, 2, AddressingMode::Implied),
        0x49 => info(Kind::Eor, "EOR", 2, 2, AddressingMode::Immediate),
        0x45 => info(Kind::Eor, "EOR", 2, 3, AddressingMode::ZeroPage),
        0x55 => info(Kind::Eor, "EOR", 2, 4, AddressingMode::ZeroPageX),
        0x4d => info(Kind::Eor, "EOR", 3, 4, AddressingMode::Absolute),
        0x5d => info(Kind::Eor, "EOR", 3, 4, AddressingMode::AbsoluteX),
        0x59 => info(Kind::Eor, "EOR", 3, 4, AddressingMode::AbsoluteY),
        0x41 => info(Kind::Eor, "EOR", 2, 6, AddressingMode::IndirectX),
        0x51 => info(Kind::Eor, "EOR", 2, 5, AddressingMode::IndirectY),
        0xe6 => info(Kind::Inc, "INC", 2, 5, AddressingMode::ZeroPage),
        0xf6 => info(Kind::Inc, "INC", 2, 6, AddressingMode::ZeroPageX),
        0xee => info(Kind::Inc, "INC", 3, 6, AddressingMode::Absolute),
        0xfe => info(Kind::Inc, "INC", 3, 7, AddressingMode::AbsoluteX),
        0xe8 => info(Kind::Inx, "INX", 1, 2, AddressingMode::Implied),
        0xc8 => info(Kind::Iny, "INY", 1, 2, AddressingMode::Implied),
        0xa9 => info(Kind::Lda, "LDA", 2, 2, AddressingMode::Immediate),
        0xa5 => info(Kind::Lda, "LDA", 2, 3, AddressingMode::ZeroPage),
        0xb5 => info(Kind::Lda, "LDA", 2, 4, AddressingMode::ZeroPageX),
        0xad => info(Kind::Lda, "LDA", 3, 4, AddressingMode::Absolute),
        0xbd => info(Kind::Lda, "LDA", 3, 4, AddressingMode::AbsoluteX),
        0xb9 => info(Kind::Lda, "LDA", 3, 4, AddressingMode::AbsoluteY),
        0xa1 => info(Kind::Lda, "LDA", 2, 6, AddressingMode::IndirectX),
        0xb1 => info(Kind::Lda, "LDA", 2, 5, AddressingMode::IndirectY),
        0xa2 => info(Kind::Ldx, "LDX", 2, 2, AddressingMode::Immediate),
        0xa6 => info(Kind::Ldx, "LDX", 2, 3, AddressingMode::ZeroPage),
        0xb6 => info(Kind::Ldx, "LDX", 2, 4, AddressingMode::ZeroPageX),
        0xae => info(Kind::Ldx, "LDX", 3, 4, AddressingMode::Absolute),
        0xbe => info(Kind::Ldx, "LDX", 3, 4, AddressingMode::AbsoluteY),
        0xa0 => info(Kind::Ldy, "LDY", 2, 2, AddressingMode::Immediate),
        0xa4 => info(Kind::Ldy, "LDY", 2, 3, AddressingMode::ZeroPage),
        0xb4 => info(Kind::Ldy, "LDY", 2, 4, AddressingMode::ZeroPageX),
        0xac => info(Kind::Ldy, "LDY", 3, 4, AddressingMode::Absolute),
        0xbc => info(Kind::Ldy, "LDY", 3, 4, AddressingMode::AbsoluteX),
        0x4a => info(Kind::Lsr, "LSR", 1, 2, AddressingMode::Implied),
        0x46 => info(Kind::Lsr, "LSR", 2, 5, AddressingMode::ZeroPage),
        0x56 => info(Kind::Lsr, "LSR", 2, 6, AddressingMode::ZeroPageX),
        0x4e => info(Kind::Lsr, "LSR", 3, 6, AddressingMode::Absolute),
        0x5e => info(Kind::Lsr, "LSR", 3, 7, AddressingMode::AbsoluteX),
        0xea => info(Kind::Nop, "NOP", 1, 2, AddressingMode::Implied),
        0x09 => info(Kind::Ora, "ORA", 2, 2, AddressingMode::Immediate),
        0x05 => info(Kind::Ora, "ORA", 2, 3, AddressingMode::ZeroPage),
        0x15 => info(Kind::Ora, "ORA", 2, 4, AddressingMode::ZeroPageX),
        0x0d => info(Kind::Ora, "ORA", 3, 4, AddressingMode::Absolute),
        0x1d => info(Kind::Ora, "ORA", 3, 4, AddressingMode::AbsoluteX),
        0x19 => info(Kind::Ora, "ORA", 3, 4, AddressingMode::AbsoluteY),
        0x01 => info(Kind::Ora, "ORA", 2, 6, AddressingMode::IndirectX),
        0x11 => info(Kind::Ora, "ORA", 2, 5, AddressingMode::IndirectY),
        0x48 => info(Kind::Pha, "PHA", 1, 3, AddressingMode::Implied),
        0x08 => info(Kind::Php, "PHP", 1, 3, AddressingMode::Implied),
        0x68 => info(Kind::Pla, "PLA", 1, 4, AddressingMode::Implied),
        0x28 => info(Kind::Plp, "PLP", 1, 4, AddressingMode::Implied),
        0x2a => info(Kind::Rol, "ROL", 1, 2, AddressingMode::Implied),
        0x26 => info(Kind::Rol, "ROL", 2, 5, AddressingMode::ZeroPage),
        0x36 => info(Kind::Rol, "ROL", 2, 6, AddressingMode::ZeroPageX),
        0x2e => info(Kind::Rol, "ROL", 3, 6, AddressingMode::Absolute),
        0x3e => info(Kind::Rol, "ROL", 3, 7, AddressingMode::AbsoluteX),
        0x6a => info(Kind::Ror, "ROR", 1, 2, AddressingMode::Implied),
        0x66 => info(Kind::Ror, "ROR", 2, 5, AddressingMode::ZeroPage),
        0x76 => info(Kind::Ror, "ROR", 2, 6, AddressingMode::ZeroPageX),
        0x6e => info(Kind::Ror, "ROR", 3, 6, AddressingMode::Absolute),
        0x7e => info(Kind::Ror, "ROR", 3, 7, AddressingMode::AbsoluteX),
        0xe9 => info(Kind::Sbc, "SBC", 2, 2, AddressingMode::Immediate),
        0xe5 => info(Kind::Sbc, "SBC", 2, 3, AddressingMode::ZeroPage),
        0xf5 => info(Kind::Sbc, "SBC", 2, 4, AddressingMode::ZeroPageX),
        0xed => info(Kind::Sbc, "SBC", 3, 4, AddressingMode::Absolute),
        0xfd => info(Kind::Sbc, "SBC", 3, 4, AddressingMode::AbsoluteX),
        0xf9 => info(Kind::Sbc, "SBC", 3, 4, AddressingMode::AbsoluteY),
        0xe1 => info(Kind::Sbc, "SBC", 2, 6, AddressingMode::IndirectX),
        0xf1 => info(Kind::Sbc, "SBC", 2, 5, AddressingMode::IndirectY),
        0x38 => info(Kind::Sec, "SEC", 1, 2, AddressingMode::Implied),
        0xf8 => info(Kind::Sed, "SED", 1, 2, AddressingMode::Implied),
        0x78 => info(Kind::Sei, "SEI", 1, 2, AddressingMode::Implied),
        0x85 => info(Kind::Sta, "STA", 2, 3, AddressingMode::ZeroPage),
        0x95 => info(Kind::Sta, "STA", 2, 4, AddressingMode::ZeroPageX),
        0x8d => info(Kind::Sta, "STA", 3, 4, AddressingMode::Absolute),
        0x9d => info(Kind::Sta, "STA", 3, 5, AddressingMode::AbsoluteX),
        0x99 => info(Kind::Sta, "STA", 3, 5, AddressingMode::AbsoluteY),
        0x81 => info(Kind::Sta, "STA", 2, 6, AddressingMode::IndirectX),
        0x91 => info(Kind::Sta, "STA", 2, 6, AddressingMode::IndirectY),
        0x86 => info(Kind::Stx, "STX", 2, 3, AddressingMode::ZeroPage),
        0x96 => info(Kind::Stx, "STX", 2, 4, AddressingMode::ZeroPageX),
        0x8e => info(Kind::Stx, "STX", 3, 4, AddressingMode::Absolute),
        0x84 => info(Kind::Sty, "STY", 2, 3, AddressingMode::ZeroPage),
        0x94 => info(Kind::Sty, "STY", 2, 4, AddressingMode::ZeroPageX),
        0x8c => info(Kind::Sty, "STY", 3, 4, AddressingMode::Absolute),
        0xaa => info(Kind::Tax, "TAX", 1, 2, AddressingMode::Implied),
        0xa8 => info(Kind::Tay, "TAY", 1, 2, AddressingMode::Implied),
        0xba => info(Kind::Tsx, "TSX", 1, 2, AddressingMode::Implied),
        0x8a => info(Kind::Txa, "TXA", 1, 2, AddressingMode::Implied),
        0x9a => info(Kind::Txs, "TXS", 1, 2, AddressingMode::Implied),
        0x98 => info(Kind::Tya, "TYA", 1, 2, AddressingMode::Implied),
        _ => info(Kind::Undefined, "NUL", 0, 0, AddressingMode::Immediate),
    }
}

/// True when the opcode byte has a populated table entry.
pub open spec fn opcode_defined(code: u8) -> bool {
    !(opcode_info(code).kind is Undefined)
}

/// One executable table entry agrees with the mathematical table at `code`:
/// same mnemonic, length, cycles and mode; populated entries carry their
/// own opcode byte, and a zero length marks exactly the unpopulated
/// entries.
pub open spec fn entry_ok(o: Opcode, code: u8) -> bool {
    &&& o.mnemonic == opcode_info(code).mnemonic
    &&& o.length == opcode_info(code).len
    &&& o.cycles == opcode_info(code).cycles
    &&& o.mode == opcode_info(code).mode
    &&& (opcode_defined(code) ==> o.code == code)
    &&& ((o.length == 0) <==> !opcode_defined(code))
}

/// The executable table agrees with the mathematical table everywhere.
pub open spec fn table_wf(t: Seq<Opcode>) -> bool {
    &&& t.len() == 256
    &&& forall|code: u8| #[trigger] entry_ok(t[code as int], code)
}

// ---------------------------------------------------------------------------
// The step relation
// ---------------------------------------------------------------------------

/// The outcome of one instruction: the next machine state, a halt (BRK)
/// with the final state, or a fault with the state at the fault.
pub ghost enum Step {
    Next(Machine),
    Halt(Machine),
    Fault(Machine, Fault),
}

/// The effect of executing the instruction `code` on a machine whose
/// program counter already points past the opcode byte. Faults leave the
/// machine as it stood when the fault was found.
pub open spec fn spec_exec(m: Machine, code: u8) -> Step {
    let i = opcode_info(code);
    match i.kind {
        Kind::Undefined => Step::Fault(m, Fault::UnknownOpcode(code)),
        Kind::Brk => Step::Halt(m),
        Kind::Adc => Step::Next(spec_adc(m, i.mode, i.len)),
        Kind::And => Step::Next(spec_and(m, i.mode, i.len)),
        Kind::Asl => Step::Next(spec_asl(m, i.mode, i.len)),
        Kind::Clc => Step::Next(spec_clc(m)),
        Kind::Cld => Step::Next(spec_cld(m)),
        Kind::Cli => Step::Next(spec_cli(m)),
        Kind::Clv => Step::Next(spec_clv(m)),
        Kind::Cmp => Step::Next(spec_cmp_with(m, i.mode, i.len, m.a)),
        Kind::Cpx => Step::Next(spec_cmp_with(m, i.mode, i.len, m.x)),
        Kind::Cpy => Step::Next(spec_cmp_with(m, i.mode, i.len, m.y)),
        Kind::Dec => Step::Next(spec_dec(m, i.mode, i.len)),
        Kind::Dex => Step::Next(spec_dex(m)),
        Kind::Dey => Step::Next(spec_dey(m)),
        Kind::Eor => Step::Next(spec_eor(m, i.mode, i.len)),
        Kind::Inc => Step::Next(spec_inc(m, i.mode, i.len)),
        Kind::Inx => Step::Next(spec_inx(m)),
        Kind::Iny => Step::Next(spec_iny(m)),
        Kind::Lda => Step::Next(spec_lda(m, i.mode, i.len)),
        Kind::Ldx => Step::Next(spec_ldx(m, i.mode, i.len)),
        Kind::Ldy => Step::Next(spec_ldy(m, i.mode, i.len)),
        Kind::Lsr => Step::Next(spec_lsr(m, i.mode, i.len)),
        Kind::Nop => Step::Next(m),
        Kind::Ora => Step::Next(spec_ora(m, i.mode, i.len)),
        Kind::Pha => if m.sp == 0x0100 {
            Step::Fault(m, Fault::StackOverflow)
        } else {
            Step::Next(spec_pha(m))
        },
        Kind::Php => if m.sp == 0x0100 {
            Step::Fault(m, Fault::StackOverflow)
        } else {
            Step::Next(spec_php(m))
        },
        Kind::Pla => if m.sp == 0x01ff {
            Step::Fault(m, Fault::StackUnderflow)
        } else {
            Step::Next(spec_pla(m))
        },
        Kind::Plp => if m.sp == 0x01ff {
            Step::Fault(m, Fault::StackUnderflow)
        } else {
            Step::Next(spec_plp(m))
        },
        Kind::Rol => Step::Next(spec_rol(m, i.mode, i.len)),
        Kind::Ror => Step::Next(spec_ror(m, i.mode, i.len)),
        Kind::Sbc => Step::Next(spec_sbc(m, i.mode, i.len)),
        Kind::Sec => Step::Next(spec_sec(m)),
        Kind::Sed => Step::Next(spec_sed(m)),
        Kind::Sei => Step::Next(spec_sei(m)),
        Kind::Sta => Step::Next(spec_sta(m, i.mode, i.len)),
        Kind::Stx => Step::Next(spec_stx(m, i.mode, i.len)),
        Kind::Sty => Step::Next(spec_sty(m, i.mode, i.len)),
        Kind::Tax => Step::Next(spec_tax(m)),
        Kind::Tay => Step::Next(spec_tay(m)),
        Kind::Tsx => Step::Next(spec_tsx(m)),
        Kind::Txa => Step::Next(spec_txa(m)),
        Kind::Txs => Step::Next(spec_txs(m)),
        Kind::Tya => Step::Next(spec_tya(m)),
    }
}

/// One full fetch-decode-execute step: read the opcode at the program
/// counter, move the counter past it, then execute.
pub open spec fn spec_step(m: Machine) -> Step {
    spec_exec(Machine { pc: m.pc.wrapping_add(1), ..m }, rd8(m.mem, m.pc))
}

/// `m1` follows from `m0` by exactly `n` non-halting steps.
pub open spec fn steps_to(m0: Machine, m1: Machine, n: nat) -> bool
    decreases n,
{
    if n == 0 {
        m0 == m1
    } else {
        spec_step(m0) matches Step::Next(mm) && steps_to(mm, m1, (n - 1) as nat)
    }
}

/// `m1` follows from `m0` by some number of non-halting steps.
pub open spec fn reaches(m0: Machine, m1: Machine) -> bool {
    exists|n: nat| steps_to(m0, m1, n)
}

/// A run of `n` non-halting steps extends by one more.
pub proof fn lemma_steps_to_snoc(m0: Machine, m1: Machine, m2: Machine, n: nat)
    requires
        steps_to(m0, m1, n),
        spec_step(m1) == Step::Next(m2),
    ensures
        steps_to(m0, m2, n + 1),
    decreases n,
{
    if n == 0 {
        assert(steps_to(m2, m2, 0));
    } else {
        match spec_step(m0) {
            Step::Next(mm) => {
                lemma_steps_to_snoc(mm, m1, m2, (n - 1) as nat);
            },
            _ => {
                assert(false);
            },
        }
    }
}

/// `TXS` always lands the stack pointer inside the stack page.
pub proof fn lemma_txs_sp_range(x: u8)
    ensures
        0x0100 <= ((x as u16) | 0x100) <= 0x01ff,
{
    assert(0x0100 <= ((x as u16) | 0x100) <= 0x01ff) by (bit_vector);
}

} // verus!
