use mos6502::cpu::NoOpHook;
use mos6502::AddressingMode;
use mos6502::Fault;
use mos6502::Status;
use mos6502::StepHook;
use mos6502::CPU;

// --- N/Z tracking (the shared flag rule) ---

#[test]
fn nz_flags_track_result() {
    let mut cpu = CPU::new();
    cpu.load_and_run(vec![0xa9, 0x80, 0x00]).unwrap();
    assert!(cpu.status.get() & Status::NEGATIV != 0);
    assert!(cpu.status.get() & Status::ZERO == 0);

    let mut cpu = CPU::new();
    cpu.load_and_run(vec![0xa9, 0x00, 0x00]).unwrap();
    assert!(cpu.status.get() & Status::NEGATIV == 0);
    assert!(cpu.status.get() & Status::ZERO != 0);
}

// --- stores keep every flag bit ---

#[test]
fn sta_preserves_flags() {
    let mut cpu = CPU::new();
    cpu.accumulator = 0x2a;
    cpu.status.set(Status::CARRY | Status::OVERFLOW | Status::DECIMAL_MODE);
    cpu.debug_load_and_run(vec![0x85, 0x10, 0x00]).unwrap();
    assert_eq!(cpu.mem_read(0x10), 0x2a);
    assert_eq!(
        cpu.status.get(),
        Status::CARRY | Status::OVERFLOW | Status::DECIMAL_MODE
    );
}

// --- LDA then STA lands the value in memory ---

#[test]
fn lda_then_sta_round_trip() {
    let mut cpu = CPU::new();
    cpu.load_and_run(vec![0xa9, 0x2a, 0x85, 0x10, 0x00]).unwrap();
    assert_eq!(cpu.mem_read(0x10), 0x2a);
}

// --- PHA; LDA #0; PLA restores A, with N/Z from the restored value ---

#[test]
fn pha_lda_pla_restores_accumulator() {
    let mut cpu = CPU::new();
    cpu.accumulator = 0x90;
    cpu.debug_load_and_run(vec![0x48, 0xa9, 0x00, 0x68, 0x00]).unwrap();
    assert_eq!(cpu.accumulator, 0x90);
    assert!(cpu.status.get() & Status::NEGATIV != 0);
    assert!(cpu.status.get() & Status::ZERO == 0);
}

#[test]
fn stack_round_trip_scenario() {
    let mut cpu = CPU::new();
    cpu.load_and_run(vec![0xa9, 0x0f, 0x48, 0xa9, 0x00, 0x68, 0x00]).unwrap();
    assert_eq!(cpu.accumulator, 0x0f);
    assert!(cpu.status.get() & Status::NEGATIV == 0);
    assert!(cpu.status.get() & Status::ZERO == 0);
}

// --- PHP; <op that changes P>; PLP restores P bit-identically ---

#[test]
fn php_plp_round_trip() {
    let mut cpu = CPU::new();
    cpu.status.set(Status::CARRY | Status::OVERFLOW);
    // LDA #0 in between sets the zero flag; PLP must undo that.
    cpu.debug_load_and_run(vec![0x08, 0xa9, 0x00, 0x28, 0x00]).unwrap();
    assert_eq!(cpu.status.get(), Status::CARRY | Status::OVERFLOW);
}

// --- reset clears registers and jumps through the reset vector ---

#[test]
fn reset_state() {
    let mut cpu = CPU::new();
    cpu.mem_write_u16(0xfffc, 0x1234);
    cpu.accumulator = 9;
    cpu.register_x = 8;
    cpu.register_y = 7;
    cpu.status.set(0xff);
    cpu.stack_pointer = 0x01a0;
    cpu.reset();
    assert_eq!(cpu.accumulator, 0);
    assert_eq!(cpu.register_x, 0);
    assert_eq!(cpu.register_y, 0);
    assert_eq!(cpu.status.get(), 0);
    assert_eq!(cpu.stack_pointer, 0x01fd);
    assert_eq!(cpu.program_counter, 0x1234);
}

// --- the program counter advances by each instruction's length ---

#[test]
fn pc_advances_by_instruction_length() {
    let mut cpu = CPU::new();
    // 2-byte LDA, 3-byte STA absolute, 1-byte NOP, 1-byte BRK.
    cpu.load_and_run(vec![0xa9, 0x05, 0x8d, 0x34, 0x12, 0xea, 0x00]).unwrap();
    assert_eq!(cpu.program_counter, 0x8007);
}

// --- INX applied 256 times is the identity on X and on Z/N from X ---

#[test]
fn inx_256_times_is_identity() {
    let mut cpu = CPU::new();
    let mut program = vec![0xe8; 256];
    program.push(0x00);
    cpu.load_and_run(program).unwrap();
    assert_eq!(cpu.register_x, 0);
    assert!(cpu.status.get() & Status::ZERO != 0);
    assert!(cpu.status.get() & Status::NEGATIV == 0);
}

// --- each fault, with an input that gives it ---

#[test]
fn unknown_opcode_faults() {
    let mut cpu = CPU::new();
    assert_eq!(
        cpu.load_and_run(vec![0xff]),
        Err(Fault::UnknownOpcode(0xff))
    );
}

#[test]
fn stack_overflow_faults() {
    let mut cpu = CPU::new();
    // The stack pointer starts at 0x01FD: 253 pushes park it at 0x0100,
    // and the 254th would leave the stack page.
    let program = vec![0x48; 254];
    assert_eq!(cpu.load_and_run(program), Err(Fault::StackOverflow));
}

#[test]
fn stack_underflow_faults() {
    let mut cpu = CPU::new();
    // Two pops move the stack pointer from 0x01FD to 0x01FF; a third
    // would leave the stack page.
    assert_eq!(
        cpu.load_and_run(vec![0x68, 0x68, 0x68]),
        Err(Fault::StackUnderflow)
    );
}

// --- 16-bit stack and memory helpers ---

#[test]
fn push_pop_u16_round_trip() {
    let mut cpu = CPU::new();
    cpu.push_u16(0xbeef);
    // High byte first, so the word reads back little-endian.
    assert_eq!(cpu.memory[0x01fd], 0xbe);
    assert_eq!(cpu.memory[0x01fc], 0xef);
    assert_eq!(cpu.pop_u16(), 0xbeef);
    assert_eq!(cpu.stack_pointer, 0x01fd);
}

#[test]
fn mem_u16_round_trip() {
    let mut cpu = CPU::new();
    cpu.mem_write_u16(0x0010, 0xabcd);
    assert_eq!(cpu.mem_read(0x0010), 0xcd);
    assert_eq!(cpu.mem_read(0x0011), 0xab);
    assert_eq!(cpu.mem_read_u16(0x0010), 0xabcd);
}

// --- addressing modes, end to end ---

#[test]
fn lda_zero_page() {
    let mut cpu = CPU::new();
    cpu.mem_write(0x10, 0x55);
    cpu.load_and_run(vec![0xa5, 0x10, 0x00]).unwrap();
    assert_eq!(cpu.accumulator, 0x55);
}

#[test]
fn lda_zero_page_x_wraps() {
    let mut cpu = CPU::new();
    cpu.mem_write(0x000f, 0x66);
    // X = 0x10, operand 0xFF: (0xFF + 0x10) mod 256 = 0x0F.
    cpu.load_and_run(vec![0xa2, 0x10, 0xb5, 0xff, 0x00]).unwrap();
    assert_eq!(cpu.accumulator, 0x66);
}

#[test]
fn lda_absolute() {
    let mut cpu = CPU::new();
    cpu.mem_write(0x1234, 0x77);
    cpu.load_and_run(vec![0xad, 0x34, 0x12, 0x00]).unwrap();
    assert_eq!(cpu.accumulator, 0x77);
}

#[test]
fn lda_absolute_x() {
    let mut cpu = CPU::new();
    cpu.mem_write(0x1234, 0x78);
    cpu.load_and_run(vec![0xa2, 0x01, 0xbd, 0x33, 0x12, 0x00]).unwrap();
    assert_eq!(cpu.accumulator, 0x78);
}

#[test]
fn lda_absolute_y() {
    let mut cpu = CPU::new();
    cpu.mem_write(0x1234, 0x79);
    cpu.load_and_run(vec![0xa0, 0x04, 0xb9, 0x30, 0x12, 0x00]).unwrap();
    assert_eq!(cpu.accumulator, 0x79);
}

#[test]
fn lda_indirect_x() {
    let mut cpu = CPU::new();
    cpu.mem_write(0x24, 0x34);
    cpu.mem_write(0x25, 0x12);
    cpu.mem_write(0x1234, 0x99);
    cpu.load_and_run(vec![0xa2, 0x04, 0xa1, 0x20, 0x00]).unwrap();
    assert_eq!(cpu.accumulator, 0x99);
}

#[test]
fn lda_indirect_y() {
    let mut cpu = CPU::new();
    cpu.mem_write(0x20, 0x30);
    cpu.mem_write(0x21, 0x12);
    cpu.mem_write(0x1234, 0x9a);
    cpu.load_and_run(vec![0xa0, 0x04, 0xb1, 0x20, 0x00]).unwrap();
    assert_eq!(cpu.accumulator, 0x9a);
}

// --- the opcode descriptor table ---

#[test]
fn opcode_table_entries() {
    let table = CPU::create_opcode_table();
    assert_eq!(table.len(), 256);
    assert_eq!(table[0x69].code, 0x69);
    assert_eq!(table[0x69].mnemonic, "ADC");
    assert_eq!(table[0x69].length, 2);
    assert_eq!(table[0x69].cycles, 2);
    assert_eq!(table[0x69].mode, AddressingMode::Immediate);
    assert_eq!(table[0x00].mnemonic, "BRK");
    assert_eq!(table[0x9d].length, 3);
    assert_eq!(table[0x9d].cycles, 5);
    assert_eq!(table[0x9d].mode, AddressingMode::AbsoluteX);
    // An unpopulated entry is the zero-length placeholder.
    assert_eq!(table[0x02].length, 0);
    assert_eq!(table[0x02].mnemonic, "NUL");
}

// --- the per-step observer ---

struct CountingHook {
    steps: u32,
}

impl StepHook for CountingHook {
    fn on_step(&mut self, cpu: &mut CPU) {
        self.steps += 1;
        // The hook may read and mutate CPU state between instructions.
        let _ = cpu.accumulator;
    }
}

#[test]
fn run_with_callback_observes_each_step() {
    let mut cpu = CPU::new();
    cpu.load(vec![0xa9, 0x05, 0xaa, 0x00]);
    cpu.reset();
    let mut hook = CountingHook { steps: 0 };
    cpu.run_with_callback(&mut hook).unwrap();
    // LDA, TAX, BRK: the hook runs once per fetched instruction.
    assert_eq!(hook.steps, 3);
    assert_eq!(cpu.register_x, 0x05);
}

#[test]
fn run_with_callback_noop_hook_matches_run() {
    let mut cpu = CPU::new();
    cpu.load(vec![0xa9, 0xc0, 0xaa, 0xe8, 0x00]);
    cpu.reset();
    cpu.run_with_callback(&mut NoOpHook).unwrap();
    assert_eq!(cpu.register_x, 0xc1);
}

#[test]
fn opcode_table_population() {
    let table = CPU::create_opcode_table();
    let mut populated: u32 = 0;
    for entry in &table {
        if entry.length != 0 {
            populated += 1;
        }
    }
    assert_eq!(populated, 136);
}

// --- the status register primitives ---

#[test]
fn status_register_operations() {
    let mut cpu = CPU::new();
    cpu.status.set(Status::CARRY | Status::BREAK);
    assert!(cpu.status.contains(Status::CARRY));
    assert!(cpu.status.contains(Status::BREAK));
    assert!(!cpu.status.contains(Status::BREAK2));
    cpu.status.reset(Status::CARRY);
    assert!(!cpu.status.contains(Status::CARRY));
    assert_eq!(cpu.status.get(), Status::BREAK);
    cpu.status.insert(0xa5);
    assert_eq!(cpu.status.get(), 0xa5);
}

// --- SBC with a set carry subtracts exactly, leaving carry set ---

#[test]
fn sbc_exact_subtraction_sets_carry() {
    let mut cpu = CPU::new();
    cpu.accumulator = 9;
    cpu.status.set(Status::CARRY);
    cpu.debug_load_and_run(vec![0xe9, 0x03, 0x00]).unwrap();
    assert_eq!(cpu.accumulator, 6);
    assert!(cpu.status.get() & Status::CARRY != 0);
}

// --- ADC scenario with carry-in ---

#[test]
fn adc_uses_carry_in() {
    let mut cpu = CPU::new();
    cpu.status.set(Status::CARRY);
    cpu.debug_load_and_run(vec![0xa9, 0x01, 0x69, 0x02, 0x00]).unwrap();
    assert_eq!(cpu.accumulator, 4);
    assert!(cpu.status.get() & Status::CARRY == 0);
}

// --- ASL scenarios with exact flag bytes ---

#[test]
fn asl_scenarios() {
    let mut cpu = CPU::new();
    cpu.debug_load_and_run(vec![0xa9, 0x08, 0x0a, 0x00]).unwrap();
    assert_eq!(cpu.accumulator, 0x10);
    assert!(cpu.status.get() & Status::CARRY == 0);

    let mut cpu = CPU::new();
    cpu.debug_load_and_run(vec![0xa9, 0xff, 0x0a, 0x00]).unwrap();
    assert_eq!(cpu.accumulator, 0xfe);
    assert!(cpu.status.get() & Status::CARRY != 0);
    assert!(cpu.status.get() & Status::NEGATIV != 0);
}
