//! Machine-wide laws, proved once and for all over the spec-level model.
//!
//! Each proof function here states a property of the instruction semantics
//! itself ([`spec_exec`] / [`spec_step`]), so it holds of every program and
//! every starting state the hypotheses admit.

use crate::model::Kind;
use crate::model::add_result;
use crate::model::add_status;
use crate::model::Machine;
use crate::model::Step;
use crate::model::flag_set;
use crate::model::machine_wf;
use crate::model::opcode_info;
use crate::model::operand_addr;
use crate::model::pop8_value;
use crate::model::rd8;
use crate::model::ror_result;
use crate::model::set_flag;
use crate::model::set_nz;
use crate::model::spec_exec;
use crate::model::spec_inx;
use crate::model::spec_step;
use crate::status::Status;
use vstd::prelude::*;

verus! {

/// The machine one non-halting, non-faulting step leads to.
pub open spec fn next_of(m: Machine) -> Machine {
    spec_step(m)->Next_0
}

/// Law: the shared N/Z rule is exact. Every instruction that sets N and Z
/// does so through [`set_nz`] on its result byte, so after any such
/// instruction the zero flag mirrors "the result byte is zero", the
/// negative flag mirrors bit 7 of the result byte, and no other flag bit
/// moves.
pub proof fn lemma_nz_flags(p: u8, r: u8)
    ensures
        flag_set(set_nz(p, r), Status::ZERO) <==> r == 0,
        flag_set(set_nz(p, r), Status::NEGATIV) <==> r & 0x80 != 0,
        set_nz(p, r) & !(Status::ZERO | Status::NEGATIV) == p & !(Status::ZERO | Status::NEGATIV),
{
    assert((set_nz(p, r) & Status::ZERO != 0 <==> r == 0) && (set_nz(p, r) & Status::NEGATIV != 0
        <==> r & 0x80 != 0) && (set_nz(p, r) & !(Status::ZERO | Status::NEGATIV) == p & !(
    Status::ZERO | Status::NEGATIV))) by (bit_vector);
}

/// True when `p` has the zero flag exactly for `r == 0` and the negative
/// flag exactly for bit 7 of `r`.
pub open spec fn nz_tracks(p: u8, r: u8) -> bool {
    &&& flag_set(p, Status::ZERO) <==> r == 0
    &&& flag_set(p, Status::NEGATIV) <==> r & 0x80 != 0
}

/// Law: after every instruction that sets N and Z, those flags track the
/// instruction's own result byte -- the destination register for loads,
/// arithmetic, logic, transfers and pulls; the shifted or stepped byte for
/// shifts, rotates, INC and DEC (in the accumulator for the `Implied`
/// forms, at the effective address otherwise); and the wrapped difference
/// for comparisons.
pub proof fn lemma_nz_after_instruction(m: Machine, code: u8)
    requires
        machine_wf(m),
    ensures
        spec_exec(m, code) matches Step::Next(m2) ==> {
            let k = opcode_info(code).kind;
            let ea = operand_addr(m, opcode_info(code).mode);
            &&& ((k is Lda || k is Adc || k is Sbc || k is And || k is Ora || k is Eor
                || k is Txa || k is Tya || k is Pla) ==> nz_tracks(m2.p, m2.a))
            &&& ((k is Ldx || k is Inx || k is Dex || k is Tax || k is Tsx) ==> nz_tracks(
                m2.p,
                m2.x,
            ))
            &&& ((k is Ldy || k is Iny || k is Dey || k is Tay) ==> nz_tracks(m2.p, m2.y))
            &&& ((k is Asl || k is Lsr || k is Rol || k is Ror) ==> nz_tracks(
                m2.p,
                if opcode_info(code).mode is Implied {
                    m2.a
                } else {
                    rd8(m2.mem, ea)
                },
            ))
            &&& ((k is Inc || k is Dec) ==> nz_tracks(m2.p, rd8(m2.mem, ea)))
            &&& (k is Cmp ==> nz_tracks(m2.p, m.a.wrapping_sub(rd8(m.mem, ea))))
            &&& (k is Cpx ==> nz_tracks(m2.p, m.x.wrapping_sub(rd8(m.mem, ea))))
            &&& (k is Cpy ==> nz_tracks(m2.p, m.y.wrapping_sub(rd8(m.mem, ea))))
        },
{
    let k = opcode_info(code).kind;
    let mode = opcode_info(code).mode;
    let ea = operand_addr(m, mode);
    let v = rd8(m.mem, ea);
    match k {
        Kind::Lda => lemma_nz_flags(m.p, v),
        Kind::Ldx => lemma_nz_flags(m.p, v),
        Kind::Ldy => lemma_nz_flags(m.p, v),
        Kind::Adc => lemma_nz_flags(
            add_status(m.a, v, m.p),
            add_result(m.a, v, m.p),
        ),
        Kind::Sbc => lemma_nz_flags(
            add_status(m.a, (v ^ 0xff) as u8, m.p),
            add_result(m.a, (v ^ 0xff) as u8, m.p),
        ),
        Kind::And => lemma_nz_flags(m.p, m.a & v),
        Kind::Ora => lemma_nz_flags(m.p, m.a | v),
        Kind::Eor => lemma_nz_flags(m.p, m.a ^ v),
        Kind::Txa => lemma_nz_flags(m.p, m.x),
        Kind::Tya => lemma_nz_flags(m.p, m.y),
        Kind::Tax => lemma_nz_flags(m.p, m.a),
        Kind::Tay => lemma_nz_flags(m.p, m.a),
        Kind::Tsx => lemma_nz_flags(m.p, m.sp as u8),
        Kind::Inx => lemma_nz_flags(m.p, m.x.wrapping_add(1)),
        Kind::Iny => lemma_nz_flags(m.p, m.y.wrapping_add(1)),
        Kind::Dex => lemma_nz_flags(m.p, m.x.wrapping_sub(1)),
        Kind::Dey => lemma_nz_flags(m.p, m.y.wrapping_sub(1)),
        Kind::Inc => lemma_nz_flags(m.p, v.wrapping_add(1)),
        Kind::Dec => lemma_nz_flags(m.p, v.wrapping_sub(1)),
        Kind::Pla => lemma_nz_flags(m.p, pop8_value(m)),
        Kind::Asl => {
            if mode is Implied {
                lemma_nz_flags(
                    set_flag(m.p, Status::CARRY, m.a & 0x80 != 0),
                    (m.a << 1) as u8,
                );
            } else {
                lemma_nz_flags(
                    set_flag(m.p, Status::CARRY, v & 0x80 != 0),
                    (v << 1) as u8,
                );
            }
        },
        Kind::Lsr => {
            if mode is Implied {
                lemma_nz_flags(
                    set_flag(m.p, Status::CARRY, m.a & 0x01 != 0),
                    m.a >> 1,
                );
            } else {
                lemma_nz_flags(set_flag(m.p, Status::CARRY, v & 0x01 != 0), v >> 1);
            }
        },
        Kind::Rol => {
            if mode is Implied {
                lemma_nz_flags(
                    set_flag(m.p, Status::CARRY, m.a & 0x80 != 0),
                    ((m.a << 1) | (m.p & Status::CARRY)) as u8,
                );
            } else {
                lemma_nz_flags(
                    set_flag(m.p, Status::CARRY, v & 0x80 != 0),
                    ((v << 1) | (m.p & Status::CARRY)) as u8,
                );
            }
        },
        Kind::Ror => {
            if mode is Implied {
                lemma_nz_flags(
                    set_flag(m.p, Status::CARRY, m.a & 0x01 != 0),
                    ror_result(m.a, m.p),
                );
            } else {
                lemma_nz_flags(
                    set_flag(m.p, Status::CARRY, v & 0x01 != 0),
                    ror_result(v, m.p),
                );
            }
        },
        Kind::Cmp => lemma_nz_flags(
            set_flag(m.p, Status::CARRY, m.a >= v),
            m.a.wrapping_sub(v),
        ),
        Kind::Cpx => lemma_nz_flags(
            set_flag(m.p, Status::CARRY, m.x >= v),
            m.x.wrapping_sub(v),
        ),
        Kind::Cpy => lemma_nz_flags(
            set_flag(m.p, Status::CARRY, m.y >= v),
            m.y.wrapping_sub(v),
        ),
        _ => {},
    }
}

/// Law: every store (STA, STX, STY) writes exactly the source register to
/// the effective address, leaves every other memory byte alone, changes
/// no register and no flag bit, and advances the program counter over its
/// operand bytes.
pub proof fn lemma_store(m: Machine, code: u8)
    requires
        machine_wf(m),
        opcode_info(code).kind is Sta || opcode_info(code).kind is Stx || opcode_info(
            code,
        ).kind is Sty,
    ensures
        spec_exec(m, code) is Next,
        spec_exec(m, code) matches Step::Next(m2) ==> {
            &&& m2.p == m.p
            &&& m2.a == m.a
            &&& m2.x == m.x
            &&& m2.y == m.y
            &&& m2.sp == m.sp
            &&& m2.pc == m.pc.wrapping_add((opcode_info(code).len - 1) as u16)
            &&& rd8(m2.mem, operand_addr(m, opcode_info(code).mode)) == (
            if opcode_info(code).kind is Sta {
                m.a
            } else if opcode_info(code).kind is Stx {
                m.x
            } else {
                m.y
            })
            &&& forall|a: u16|
                a != operand_addr(m, opcode_info(code).mode) ==> #[trigger] rd8(m2.mem, a) == rd8(
                    m.mem,
                    a,
                )
        },
{
}

/// Law: loading an immediate value and then storing it to a zero-page
/// address leaves exactly that value in memory at that address. The
/// hypotheses lay the four instruction bytes (`LDA #v; STA tgt`) at the
/// program counter.
pub proof fn lemma_lda_then_sta(m: Machine, v: u8, tgt: u8)
    requires
        machine_wf(m),
        rd8(m.mem, m.pc) == 0xa9,
        rd8(m.mem, m.pc.wrapping_add(1)) == v,
        rd8(m.mem, m.pc.wrapping_add(2)) == 0x85,
        rd8(m.mem, m.pc.wrapping_add(3)) == tgt,
    ensures
        spec_step(m) is Next,
        next_of(m).a == v,
        spec_step(next_of(m)) is Next,
        rd8(next_of(next_of(m)).mem, tgt as u16) == v,
{
}

/// Law: `PHA; LDA #0; PLA` restores the accumulator to its pre-push value
/// and sets N/Z from that value. The hypotheses lay the four instruction
/// bytes at the program counter, ask for room on the stack, and keep the
/// pushed byte clear of the remaining instruction bytes.
pub proof fn lemma_pha_lda_pla(m: Machine)
    requires
        machine_wf(m),
        m.sp != 0x0100,
        rd8(m.mem, m.pc) == 0x48,
        rd8(m.mem, m.pc.wrapping_add(1)) == 0xa9,
        rd8(m.mem, m.pc.wrapping_add(2)) == 0x00,
        rd8(m.mem, m.pc.wrapping_add(3)) == 0x68,
        m.sp != m.pc.wrapping_add(1),
        m.sp != m.pc.wrapping_add(2),
        m.sp != m.pc.wrapping_add(3),
    ensures
        spec_step(m) is Next,
        spec_step(next_of(m)) is Next,
        spec_step(next_of(next_of(m))) is Next,
        next_of(next_of(next_of(m))).a == m.a,
        next_of(next_of(next_of(m))).sp == m.sp,
        flag_set(next_of(next_of(next_of(m))).p, Status::ZERO) <==> m.a == 0,
        flag_set(next_of(next_of(next_of(m))).p, Status::NEGATIV) <==> m.a & 0x80 != 0,
{
    let m1 = next_of(m);
    let m2 = next_of(m1);
    let m3 = next_of(m2);
    assert(rd8(m1.mem, m.sp) == m.a);
    assert(m3.a == m.a);
    lemma_nz_flags(m2.p, m.a);
}

/// Law: `PHP`, then any activity that keeps the stack pointer and the
/// saved byte intact, then `PLP` restores the status byte bit-identically.
/// `m` executes the `PHP`; `mid` is any later machine about to execute the
/// `PLP` whose stack pointer is as `PHP` left it and whose memory still
/// holds the pushed status byte.
pub proof fn lemma_php_then_plp(m: Machine, mid: Machine)
    requires
        machine_wf(m),
        m.sp != 0x0100,
        rd8(m.mem, m.pc) == 0x08,
        machine_wf(mid),
        mid.sp == (m.sp - 1) as u16,
        rd8(mid.mem, m.sp) == m.p,
        rd8(mid.mem, mid.pc) == 0x28,
    ensures
        spec_step(m) is Next,
        rd8(next_of(m).mem, m.sp) == m.p,
        next_of(m).sp == (m.sp - 1) as u16,
        spec_step(mid) is Next,
        next_of(mid).p == m.p,
{
}

/// Law: the program counter advances by exactly the instruction's length.
/// After one non-faulting step from any state, the new program counter is
/// the old one plus the table length of the fetched opcode, wrapping
/// within 16 bits.
pub proof fn lemma_pc_advance(m: Machine)
    requires
        !(spec_step(m) is Fault),
    ensures
        spec_step(m) matches Step::Next(m1) ==> m1.pc == m.pc.wrapping_add(
            opcode_info(rd8(m.mem, m.pc)).len as u16,
        ),
        spec_step(m) matches Step::Halt(m1) ==> m1.pc == m.pc.wrapping_add(
            opcode_info(rd8(m.mem, m.pc)).len as u16,
        ),
{
    let code = rd8(m.mem, m.pc);
    lemma_wrap_chain(m.pc, opcode_info(code).len);
}

/// Advancing one byte for the opcode and `len - 1` for the operands is
/// the same as advancing `len`, wrapping within 16 bits.
proof fn lemma_wrap_chain(pc: u16, len: u8)
    requires
        1 <= len,
    ensures
        pc.wrapping_add(1).wrapping_add((len - 1) as u16) == pc.wrapping_add(len as u16),
{
}

/// The register-and-flag effect of `INX`, iterated.
pub open spec fn iter_inx(m: Machine, n: nat) -> Machine
    decreases n,
{
    if n == 0 {
        m
    } else {
        spec_inx(iter_inx(m, (n - 1) as nat))
    }
}

/// After `n` applications of `INX`, the X register holds the start value
/// plus `n`, modulo 256; nothing else but the flag byte has moved.
proof fn lemma_iter_inx(m: Machine, n: nat)
    ensures
        iter_inx(m, n).x == (m.x + n) % 256,
        iter_inx(m, n).a == m.a,
        iter_inx(m, n).y == m.y,
        iter_inx(m, n).sp == m.sp,
        iter_inx(m, n).pc == m.pc,
        iter_inx(m, n).mem == m.mem,
    decreases n,
{
    if n > 0 {
        lemma_iter_inx(m, (n - 1) as nat);
    }
}

/// Law: `INX` applied 256 times is the identity on X, and the N/Z flags it
/// leaves are the ones derived from X itself.
pub proof fn lemma_inx_identity(m: Machine)
    ensures
        iter_inx(m, 256).x == m.x,
        flag_set(iter_inx(m, 256).p, Status::ZERO) <==> m.x == 0,
        flag_set(iter_inx(m, 256).p, Status::NEGATIV) <==> m.x & 0x80 != 0,
        iter_inx(m, 256).a == m.a,
        iter_inx(m, 256).y == m.y,
        iter_inx(m, 256).sp == m.sp,
        iter_inx(m, 256).pc == m.pc,
        iter_inx(m, 256).mem == m.mem,
{
    lemma_iter_inx(m, 256);
    lemma_iter_inx(m, 255);
    assert(iter_inx(m, 256) == spec_inx(iter_inx(m, 255)));
    lemma_nz_flags(iter_inx(m, 255).p, iter_inx(m, 256).x);
}

} // verus!
