use rustycoat::clock::Clock;
use rustycoat::cpu::C6502;
use rustycoat::memory::{Memory, RomBank};
use rustycoat::model::{CpuAction, CpuState};
use rustycoat::ops::{
    adc, sbc, Regs, SR_BCD, SR_BREAK, SR_CARRY, SR_INTERRUPT_MASK, SR_NEGATIVE, SR_UNUSED, SR_ZERO,
};

/// A CPU running from `start` with `code` there, registers zeroed and SP at $FF.
fn cpu_at(start: u16, code: &[u8], p: u8) -> C6502 {
    let mut mem = Memory::new();
    mem.write_block(start, code);
    let mut cpu = C6502::new(mem);
    cpu.set_pc(start);
    cpu.set_regs(Regs { ac: 0, x: 0, y: 0, sp: 0xFF, p });
    cpu.set_state(CpuState::Running);
    cpu
}

/// Steps until the instruction in flight finishes; returns its bus cycles.
fn run_instruction(cpu: &mut C6502) -> usize {
    let mut steps = 0;
    loop {
        steps += 1;
        let a = cpu.step();
        if a == CpuAction::CompleteAndFetch {
            return steps - 1;
        }
        if a == CpuAction::Complete {
            return steps;
        }
    }
}

#[test]
fn lda_immediate_scenario() {
    let mut cpu = cpu_at(0x0400, &[0xA9, 0x10, 0x00], 0);
    assert_eq!(run_instruction(&mut cpu), 2);
    assert_eq!(cpu.ac(), 0x10);
    assert_eq!(cpu.p() & (SR_ZERO | SR_NEGATIVE), 0);
    // The next opcode, at start + 2, is already fetched.
    assert_eq!(cpu.pc(), 0x0403);
    assert_eq!(cpu.cycle(), 2);
}

#[test]
fn sta_zero_page_after_lda_scenario() {
    let mut cpu = cpu_at(0x0400, &[0xA9, 0x48, 0x85, 0x20], 0);
    // The store's opcode fetch overlaps the load's last T-state.
    let c1 = run_instruction(&mut cpu) + 1;
    let c2 = run_instruction(&mut cpu);
    assert_eq!(c1 + c2, 5);
    assert_eq!(cpu.memory().read_byte(0x0020), 0x48);
    assert_eq!(cpu.ac(), 0x48);
    assert_eq!(cpu.pc(), 0x0404);
}

#[test]
fn branch_taken_cross_page_scenario() {
    let mut cpu = cpu_at(0x04F0, &[0xF0, 0x10], SR_ZERO);
    assert_eq!(run_instruction(&mut cpu), 4);
    assert_eq!(cpu.pc(), 0x0502);
}

#[test]
fn jmp_indirect_page_wrap_scenario() {
    let mut cpu = cpu_at(0x0400, &[0x6C, 0xFF, 0x1F], 0);
    cpu.memory_mut().write_byte(0x1FFF, 0x48);
    cpu.memory_mut().write_byte(0x1F00, 0x20);
    cpu.memory_mut().write_byte(0x2000, 0x99);
    assert_eq!(run_instruction(&mut cpu), 5);
    assert_eq!(cpu.pc(), 0x2048);
}

#[test]
fn jmp_indirect_within_page() {
    let mut cpu = cpu_at(0x0400, &[0x6C, 0x10, 0x30], 0);
    cpu.memory_mut().write_block(0x3010, &[0x34, 0x12]);
    assert_eq!(run_instruction(&mut cpu), 5);
    assert_eq!(cpu.pc(), 0x1234);
}

#[test]
fn brk_scenario() {
    let mut cpu = cpu_at(0x0400, &[0x00], SR_ZERO);
    cpu.memory_mut().write_block(0xFFFE, &[0x48, 0x84]);
    assert_eq!(run_instruction(&mut cpu), 7);
    assert_eq!(cpu.pc(), 0x8448);
    assert_eq!(cpu.sp(), 0xFC);
    let m = cpu.memory();
    assert_eq!(m.read_byte(0x01FD), SR_ZERO | SR_BREAK | SR_UNUSED);
    assert_eq!(m.read_byte(0x01FE), 0x02);
    assert_eq!(m.read_byte(0x01FF), 0x04);
}

#[test]
fn reset_scenario() {
    let mut mem = Memory::new();
    mem.write_block(0xFFFC, &[0x00, 0xE0]);
    let mut cpu = C6502::new(mem);
    assert_eq!(cpu.state(), CpuState::Off);
    assert_eq!(cpu.step(), CpuAction::Continue);
    cpu.reset();
    let mut last = CpuAction::Continue;
    for i in 0..8 {
        last = cpu.step();
        if i < 7 {
            assert_eq!(last, CpuAction::Continue);
        }
    }
    assert_eq!(last, CpuAction::Complete);
    assert_eq!(cpu.sp(), 0xFD);
    assert_eq!(cpu.pc(), 0xE000);
    assert_eq!(cpu.state(), CpuState::Running);
    assert_eq!(cpu.cycle(), 1);
}

#[test]
fn illegal_opcode_is_refused_before_dispatch() {
    let mut cpu = cpu_at(0x0400, &[0x02], 0);
    assert!(cpu.can_step());
    cpu.step();
    assert!(!cpu.can_step());
}

#[test]
fn stack_underflow_is_refused() {
    let mut cpu = cpu_at(0x0400, &[0x68], 0);
    cpu.step();
    cpu.step();
    assert!(!cpu.can_step());
}

#[test]
fn adc_binary_sums_with_carry() {
    for ac in (0u16..256).step_by(17) {
        for v in (0u16..256).step_by(13) {
            for c in 0u16..2 {
                let r = adc(Regs { ac: ac as u8, x: 0, y: 0, sp: 0xFF, p: c as u8 }, v as u8);
                let sum = ac + v + c;
                assert_eq!(r.ac as u16, sum % 256);
                assert_eq!(r.p & SR_CARRY != 0, sum >= 256);
            }
        }
    }
}

#[test]
fn adc_decimal_digits() {
    let r = adc(Regs { ac: 0x19, x: 0, y: 0, sp: 0xFF, p: SR_BCD }, 0x28);
    assert_eq!(r.ac, 0x47);
    assert_eq!(r.p & SR_CARRY, 0);
    let r = adc(Regs { ac: 0x58, x: 0, y: 0, sp: 0xFF, p: SR_BCD | SR_CARRY }, 0x46);
    assert_eq!(r.ac, 0x05);
    assert_eq!(r.p & SR_CARRY, SR_CARRY);
}

#[test]
fn sbc_decimal_digits() {
    let r = sbc(Regs { ac: 0x46, x: 0, y: 0, sp: 0xFF, p: SR_BCD | SR_CARRY }, 0x12);
    assert_eq!(r.ac, 0x34);
    assert_eq!(r.p & SR_CARRY, SR_CARRY);
}

/// INC $05; JMP start, in ROM at $E000, reset vector pointing there.
fn counting_machine() -> C6502 {
    let mut rom = vec![0u8; 0x2000];
    rom[..5].copy_from_slice(&[0xE6, 0x05, 0x4C, 0x00, 0xE0]);
    rom[0x1FFC] = 0x00;
    rom[0x1FFD] = 0xE0;
    let mut mem = Memory::new();
    mem.configure_banks(vec![RomBank::with_bytes(&rom)], &[(0xE000, 0x2000, 1, 0)]);
    let mut cpu = C6502::new(mem);
    cpu.reset();
    cpu
}

#[test]
fn clock_drives_cpu_scenario() {
    let mut cpu = counting_machine();
    let mut clock = Clock::new(1_000_000);
    clock.output().connect_to(cpu.phi0_in());
    let mut last = 0u8;
    let ticks = 2 * (8 + 8 * 40);
    for _ in 0..ticks {
        clock.tick();
        let signal = cpu.phi0_in().wait();
        assert!(cpu.can_step());
        cpu.clock_edge(signal);
        assert_eq!(cpu.phi2_out().value(), signal);
        assert_eq!(cpu.phi1_out().value(), !signal);
        let now = cpu.memory().read_byte(0x05);
        assert!(now >= last);
        last = now;
    }
    // INC zp (5 cycles) + JMP abs (3 cycles): 16 ticks an iteration.
    assert!(last >= 39 && last <= 40);
    // The two phase outputs are always opposite.
    assert_eq!(cpu.phi1_out().value(), !cpu.phi2_out().value());
}

#[test]
fn nmi_pushes_and_vectors() {
    let mut cpu = cpu_at(0x1234, &[0xEA], SR_CARRY | SR_BREAK);
    cpu.memory_mut().write_block(0xFFFA, &[0x00, 0x90]);
    cpu.set_nmi();
    assert_eq!(cpu.pc(), 0x9000);
    assert_eq!(cpu.sp(), 0xFC);
    assert_eq!(cpu.p() & SR_INTERRUPT_MASK, SR_INTERRUPT_MASK);
    let m = cpu.memory();
    assert_eq!(m.read_byte(0x01FF), 0x12);
    assert_eq!(m.read_byte(0x01FE), 0x34);
    assert_eq!(m.read_byte(0x01FD), SR_CARRY | SR_UNUSED);
}

#[test]
fn irq_respects_mask() {
    let mut cpu = cpu_at(0x1234, &[0xEA], SR_INTERRUPT_MASK);
    cpu.memory_mut().write_block(0xFFFE, &[0x00, 0x80]);
    cpu.set_irq();
    assert_eq!(cpu.pc(), 0x1234);
    assert_eq!(cpu.sp(), 0xFF);
    let mut cpu = cpu_at(0x1234, &[0xEA], 0);
    cpu.memory_mut().write_block(0xFFFE, &[0x00, 0x80]);
    cpu.set_irq();
    assert_eq!(cpu.pc(), 0x8000);
    assert_eq!(cpu.sp(), 0xFC);
}

#[test]
fn brk_then_rti_round_trip() {
    let mut cpu = cpu_at(0x0400, &[0x00], SR_CARRY | SR_ZERO);
    cpu.memory_mut().write_block(0xFFFE, &[0x00, 0x06]);
    cpu.memory_mut().write_byte(0x0600, 0x40);
    assert_eq!(run_instruction(&mut cpu), 7);
    assert_eq!(cpu.pc(), 0x0600);
    cpu.set_regs(Regs { p: 0, ..cpu.regs() });
    assert_eq!(run_instruction(&mut cpu), 6);
    assert_eq!(cpu.pc(), 0x0402);
    assert_eq!(cpu.sp(), 0xFF);
    assert_eq!(cpu.p(), SR_CARRY | SR_ZERO);
}

#[test]
fn jsr_then_rts_round_trip() {
    let mut cpu = cpu_at(0x0400, &[0x20, 0x00, 0x06], 0);
    cpu.memory_mut().write_byte(0x0600, 0x60);
    assert_eq!(run_instruction(&mut cpu), 6);
    assert_eq!(cpu.pc(), 0x0600);
    assert_eq!(cpu.sp(), 0xFD);
    assert_eq!(run_instruction(&mut cpu), 6);
    assert_eq!(cpu.pc(), 0x0403);
    assert_eq!(cpu.sp(), 0xFF);
}

#[test]
fn php_then_plp_round_trip() {
    let mut cpu = cpu_at(0x0400, &[0x08, 0x28], SR_NEGATIVE | SR_CARRY);
    assert_eq!(run_instruction(&mut cpu), 3);
    assert_eq!(cpu.memory().read_byte(0x01FF), SR_NEGATIVE | SR_CARRY | SR_BREAK | SR_UNUSED);
    cpu.set_regs(Regs { p: 0, ..cpu.regs() });
    assert_eq!(run_instruction(&mut cpu), 4);
    assert_eq!(cpu.p(), SR_NEGATIVE | SR_CARRY);
    assert_eq!(cpu.sp(), 0xFF);
}
