//! The 6502 CPU: a T-state accurate interpreter over the banked memory.

use crate::decode::{decode, Cond, Instr, Mode};
use crate::memory::Memory;
use crate::model::{
    absolute_cycle, absolute_indexed_cycle, accumulator_cycle, branch_cycle, branch_taken,
    brk_cycle, immediate_cycle, implied_cycle, indexed_indirect_cycle,
    indirect_indexed_cycle, instr_cycle, interrupt, jmp_abs_cycle, jmp_ind_cycle,
    jsr_cycle, op_cycle, pull_cycle, push_cycle, reset_cycle, rti_cycle, rts_cycle, set_hi,
    set_lo, stack_ok, step_model, step_ok, zeropage_cycle, zeropage_indexed_cycle,
    CpuModel, IRQ_VECTOR, NMI_VECTOR, RESET_VECTOR, STACK_BASE,
};
use crate::ops::{
    exec_implied_op, exec_read_op, exec_rmw_op, exec_write_op, flag, kind, set_flag, set_nz,
    OpKind, Operation, Regs, SR_BREAK, SR_INTERRUPT_MASK, SR_CARRY, SR_NEGATIVE, SR_OVERFLOW, SR_UNUSED, SR_ZERO,
};
use crate::pin::Pin;
use vstd::prelude::*;

pub use crate::model::{CpuAction, CpuState};

verus! {

/// A MOS 6502 with its memory and its clock and phase pins.
pub struct C6502 {
    regs: Regs,
    pc: u16,
    cycle: usize,
    opcode: u8,
    value: u8,
    addr: u16,
    extra_addr: u16,
    state: CpuState,
    memory: Memory,
    phi0_in: Pin<bool>,
    phi1_out: Pin<bool>,
    phi2_out: Pin<bool>,
}

impl View for C6502 {
    type V = CpuModel;

    closed spec fn view(&self) -> CpuModel {
        CpuModel {
            regs: self.regs,
            pc: self.pc,
            cycle: self.cycle,
            opcode: self.opcode,
            value: self.value,
            addr: self.addr,
            extra_addr: self.extra_addr,
            state: self.state,
            mem: self.memory@,
        }
    }
}

fn set_lo_byte(x: u16, v: u8) -> (r: u16)
    ensures
        r == set_lo(x, v),
{
    (x & 0xFF00) | (v as u16)
}

fn set_hi_byte(x: u16, v: u8) -> (r: u16)
    ensures
        r == set_hi(x, v),
{
    (x & 0x00FF) | ((v as u16) << 8u16)
}

fn lo_byte(x: u16) -> (r: u8)
    ensures
        r == crate::model::lo(x),
{
    (x & 0xFF) as u8
}

fn hi_byte(x: u16) -> (r: u8)
    ensures
        r == crate::model::hi(x),
{
    (x >> 8) as u8
}

fn test_branch(c: Cond, p: u8) -> (r: bool)
    ensures
        r == branch_taken(c, p),
{
    match c {
        Cond::Pl => p & SR_NEGATIVE == 0,
        Cond::Mi => p & SR_NEGATIVE != 0,
        Cond::Vc => p & SR_OVERFLOW == 0,
        Cond::Vs => p & SR_OVERFLOW != 0,
        Cond::Cc => p & SR_CARRY == 0,
        Cond::Cs => p & SR_CARRY != 0,
        Cond::Ne => p & SR_ZERO == 0,
        Cond::Eq => p & SR_ZERO != 0,
    }
}

fn stack_ok_exec(i: Instr, cycle: usize, sp: u8) -> (r: bool)
    ensures
        r == stack_ok(i, cycle, sp),
{
    match i {
        Instr::Brk => !(3 <= cycle && cycle <= 5) || sp != 0,
        Instr::Jsr => !(4 <= cycle && cycle <= 5) || sp != 0,
        Instr::Pha | Instr::Php => cycle != 3 || sp != 0,
        Instr::Rti => !(3 <= cycle && cycle <= 5) || sp != 0xFF,
        Instr::Rts => !(3 <= cycle && cycle <= 4) || sp != 0xFF,
        Instr::Pla | Instr::Plp => cycle != 3 || sp != 0xFF,
        _ => true,
    }
}

impl C6502 {
    pub open spec fn wf(&self) -> bool {
        self@.wf()
    }

    /// The three pins: clock in, phase one out, phase two out.
    pub closed spec fn pins(&self) -> (Pin<bool>, Pin<bool>, Pin<bool>) {
        (self.phi0_in, self.phi1_out, self.phi2_out)
    }

    /// A CPU that is switched off, owning `memory`.
    pub fn new(memory: Memory) -> (r: C6502)
        requires
            memory@.wf(),
        ensures
            r.wf(),
            r@.state == CpuState::Off,
            r@.cycle == 1,
            r@.pc == 0x00FF,
            r@.regs == (Regs { ac: 0xAA, x: 0, y: 0, sp: 0xFF, p: 0 }),
            r@.mem == memory@,
            r.pins().0 is Unconnected,
            r.pins().1 is Unconnected,
            r.pins().2 is Unconnected,
    {
        C6502 {
            regs: Regs { ac: 0xAA, x: 0x00, y: 0x00, sp: 0xFF, p: 0x00 },
            pc: 0x00FF,
            cycle: 1,
            opcode: 0x00,
            value: 0x00,
            addr: 0x0000,
            extra_addr: 0x0000,
            state: CpuState::Off,
            memory,
            phi0_in: Pin::new(false),
            phi1_out: Pin::new(false),
            phi2_out: Pin::new(false),
        }
    }

    pub fn state(&self) -> (r: CpuState)
        ensures
            r == self@.state,
    {
        self.state
    }

    pub fn pc(&self) -> (r: u16)
        ensures
            r == self@.pc,
    {
        self.pc
    }

    pub fn ac(&self) -> (r: u8)
        ensures
            r == self@.regs.ac,
    {
        self.regs.ac
    }

    pub fn x(&self) -> (r: u8)
        ensures
            r == self@.regs.x,
    {
        self.regs.x
    }

    pub fn y(&self) -> (r: u8)
        ensures
            r == self@.regs.y,
    {
        self.regs.y
    }

    pub fn sp(&self) -> (r: u8)
        ensures
            r == self@.regs.sp,
    {
        self.regs.sp
    }

    pub fn p(&self) -> (r: u8)
        ensures
            r == self@.regs.p,
    {
        self.regs.p
    }

    /// The T-state counter within the current instruction.
    pub fn cycle(&self) -> (r: usize)
        ensures
            r == self@.cycle,
    {
        self.cycle
    }

    /// The opcode in flight (or last fetched).
    pub fn opcode(&self) -> (r: u8)
        ensures
            r == self@.opcode,
    {
        self.opcode
    }

    pub fn set_pc(&mut self, pc: u16)
        ensures
            final(self)@ == (CpuModel { pc, ..old(self)@ }),
            final(self).pins() == old(self).pins(),
    {
        self.pc = pc;
    }

    /// Replaces the register file.
    pub fn set_regs(&mut self, regs: Regs)
        ensures
            final(self)@ == old(self)@.with_regs(regs),
            final(self).pins() == old(self).pins(),
    {
        self.regs = regs;
    }

    /// The register file.
    pub fn regs(&self) -> (r: Regs)
        ensures
            r == self@.regs,
    {
        self.regs
    }

    /// Sets the lifecycle state directly, leaving the cycle counter alone.
    pub fn set_state(&mut self, state: CpuState)
        ensures
            final(self)@ == (CpuModel { state, ..old(self)@ }),
            final(self).pins() == old(self).pins(),
    {
        self.state = state;
    }

    pub fn memory(&self) -> (r: &Memory)
        ensures
            r@ == self@.mem,
    {
        &self.memory
    }

    pub fn memory_mut(&mut self) -> (r: &mut Memory)
        ensures
            r@ == old(self)@.mem,
            final(self)@ == (CpuModel { mem: final(r)@, ..old(self)@ }),
            final(self).pins() == old(self).pins(),
    {
        &mut self.memory
    }

    pub fn phi0_in(&mut self) -> (r: &mut Pin<bool>)
        ensures
            *r == old(self).pins().0,
            final(self)@ == old(self)@,
            final(self).pins() == (*final(r), old(self).pins().1, old(self).pins().2),
    {
        &mut self.phi0_in
    }

    pub fn phi1_out(&mut self) -> (r: &mut Pin<bool>)
        ensures
            *r == old(self).pins().1,
            final(self)@ == old(self)@,
            final(self).pins() == (old(self).pins().0, *final(r), old(self).pins().2),
    {
        &mut self.phi1_out
    }

    pub fn phi2_out(&mut self) -> (r: &mut Pin<bool>)
        ensures
            *r == old(self).pins().2,
            final(self)@ == old(self)@,
            final(self).pins() == (old(self).pins().0, old(self).pins().1, *final(r)),
    {
        &mut self.phi2_out
    }

    /// Starts the reset sequence.
    pub fn reset(&mut self)
        ensures
            final(self)@ == (CpuModel { state: CpuState::Resetting, cycle: 1, ..old(self)@ }),
            final(self).pins() == old(self).pins(),
    {
        self.state = CpuState::Resetting;
        self.cycle = 1;
    }

    fn enter_interrupt(&mut self, vector: u16)
        requires
            old(self).wf(),
            old(self)@.regs.sp >= 3,
        ensures
            final(self)@ == interrupt(old(self)@, vector),
            final(self).wf(),
            final(self).pins() == old(self).pins(),
    {
        self.push_byte(hi_byte(self.pc));
        self.push_byte(lo_byte(self.pc));
        self.push_byte((self.regs.p & !SR_BREAK) | SR_UNUSED);
        self.regs.p = set_flag(self.regs.p, SR_INTERRUPT_MASK, true);
        let l = self.read_byte(vector);
        let h = self.read_byte(vector.wrapping_add(1));
        self.pc = set_hi_byte(set_lo_byte(self.pc, l), h);
    }

    /// Raises IRQ between instructions: taken only when interrupts are not masked.
    pub fn set_irq(&mut self)
        requires
            old(self).wf(),
            old(self)@.state == CpuState::Running,
            old(self)@.cycle == 1,
            old(self)@.regs.sp >= 3,
        ensures
            final(self).wf(),
            final(self).pins() == old(self).pins(),
            final(self)@ == if flag(old(self)@.regs.p, SR_INTERRUPT_MASK) {
                old(self)@
            } else {
                interrupt(old(self)@, IRQ_VECTOR)
            },
    {
        if self.regs.p & SR_INTERRUPT_MASK == 0 {
            self.enter_interrupt(IRQ_VECTOR);
        }
    }

    /// Raises NMI between instructions: always taken.
    pub fn set_nmi(&mut self)
        requires
            old(self).wf(),
            old(self)@.state == CpuState::Running,
            old(self)@.cycle == 1,
            old(self)@.regs.sp >= 3,
        ensures
            final(self).wf(),
            final(self).pins() == old(self).pins(),
            final(self)@ == interrupt(old(self)@, NMI_VECTOR),
    {
        self.enter_interrupt(NMI_VECTOR);
    }

    /// Whether the next `step` is defined (see `step_ok`).
    pub fn can_step(&self) -> (r: bool)
        ensures
            r == step_ok(self@),
    {
        if self.state == CpuState::Running && self.cycle != 1 {
            match decode(self.opcode) {
                Some(i) => stack_ok_exec(i, self.cycle, self.regs.sp),
                None => false,
            }
        } else {
            true
        }
    }

    fn read_byte(&self, addr: u16) -> (r: u8)
        requires
            self.wf(),
        ensures
            r == self@.mem.read(addr),
    {
        self.memory.read_byte(addr)
    }

    fn read_pc_byte(&self) -> (r: u8)
        requires
            self.wf(),
        ensures
            r == self@.pc_byte(),
    {
        self.memory.read_byte(self.pc)
    }

    fn write_byte(&mut self, addr: u16, value: u8)
        requires
            old(self).wf(),
        ensures
            final(self)@ == (CpuModel { mem: old(self)@.mem.write(addr, value), ..old(self)@ }),
            final(self).wf(),
            final(self).pins() == old(self).pins(),
    {
        self.memory.write_byte(addr, value);
    }

    fn advance_pc(&mut self)
        ensures
            final(self)@ == old(self)@.advance_pc(),
            final(self).pins() == old(self).pins(),
    {
        self.pc = self.pc.wrapping_add(1);
    }

    fn push_byte(&mut self, value: u8)
        requires
            old(self).wf(),
            old(self)@.regs.sp != 0,
        ensures
            final(self)@ == old(self)@.push(value),
            final(self).wf(),
            final(self).pins() == old(self).pins(),
    {
        self.memory.write_byte(STACK_BASE + self.regs.sp as u16, value);
        self.regs.sp = self.regs.sp - 1;
    }

    fn incr_stack(&mut self)
        requires
            old(self)@.regs.sp != 0xFF,
        ensures
            final(self)@ == old(self)@.incr_stack(),
            final(self).pins() == old(self).pins(),
    {
        self.regs.sp = self.regs.sp + 1;
    }

    fn read_stack_byte(&self) -> (r: u8)
        requires
            self.wf(),
        ensures
            r == self@.stack_byte(),
    {
        self.memory.read_byte(STACK_BASE + self.regs.sp as u16)
    }

    /// One cycle of the reset sequence, before the cycle counter moves.
    fn do_reset_sequence(&mut self)
        requires
            old(self).wf(),
        ensures
            final(self)@ == reset_cycle(old(self)@),
            final(self).wf(),
            final(self).pins() == old(self).pins(),
    {
        match self.cycle {
            1 => {
                self.regs.sp = 0x00;
            },
            4 => {
                self.regs.sp = 0xFF;
            },
            5 => {
                self.regs.sp = 0xFE;
            },
            6 => {
                self.regs.sp = 0xFD;
            },
            7 => {
                let b = self.read_byte(RESET_VECTOR);
                self.pc = set_lo_byte(self.pc, b);
            },
            8 => {
                let b = self.read_byte(RESET_VECTOR + 1);
                self.pc = set_hi_byte(self.pc, b);
            },
            _ => {},
        }
    }

    fn do_brk(&mut self) -> (r: CpuAction)
        requires
            old(self).wf(),
            stack_ok(Instr::Brk, old(self)@.cycle, old(self)@.regs.sp),
        ensures
            (final(self)@, r) == brk_cycle(old(self)@),
            final(self).wf(),
            final(self).pins() == old(self).pins(),
    {
        match self.cycle {
            2 => {
                self.advance_pc();
                CpuAction::Continue
            },
            3 => {
                self.push_byte(hi_byte(self.pc));
                CpuAction::Continue
            },
            4 => {
                self.push_byte(lo_byte(self.pc));
                CpuAction::Continue
            },
            5 => {
                self.push_byte(self.regs.p | SR_BREAK | SR_UNUSED);
                CpuAction::Continue
            },
            6 => {
                let b = self.read_byte(IRQ_VECTOR);
                self.pc = set_lo_byte(self.pc, b);
                CpuAction::Continue
            },
            7 => {
                let b = self.read_byte(IRQ_VECTOR + 1);
                self.pc = set_hi_byte(self.pc, b);
                CpuAction::Complete
            },
            _ => CpuAction::Complete,
        }
    }

    fn do_rti(&mut self) -> (r: CpuAction)
        requires
            old(self).wf(),
            stack_ok(Instr::Rti, old(self)@.cycle, old(self)@.regs.sp),
        ensures
            (final(self)@, r) == rti_cycle(old(self)@),
            final(self).wf(),
            final(self).pins() == old(self).pins(),
    {
        match self.cycle {
            2 => CpuAction::Continue,
            3 => {
                self.incr_stack();
                CpuAction::Continue
            },
            4 => {
                let b = self.read_stack_byte();
                self.regs.p = b & !(SR_BREAK | SR_UNUSED);
                self.incr_stack();
                CpuAction::Continue
            },
            5 => {
                let b = self.read_stack_byte();
                self.pc = set_lo_byte(self.pc, b);
                self.incr_stack();
                CpuAction::Continue
            },
            6 => {
                let b = self.read_stack_byte();
                self.pc = set_hi_byte(self.pc, b);
                CpuAction::Complete
            },
            _ => CpuAction::Complete,
        }
    }

    fn do_push(&mut self, v: u8) -> (r: CpuAction)
        requires
            old(self).wf(),
            old(self)@.cycle == 3 ==> old(self)@.regs.sp != 0,
        ensures
            (final(self)@, r) == push_cycle(old(self)@, v),
            final(self).wf(),
            final(self).pins() == old(self).pins(),
    {
        match self.cycle {
            2 => CpuAction::Continue,
            3 => {
                self.push_byte(v);
                CpuAction::Complete
            },
            _ => CpuAction::Complete,
        }
    }

    fn do_jsr(&mut self) -> (r: CpuAction)
        requires
            old(self).wf(),
            stack_ok(Instr::Jsr, old(self)@.cycle, old(self)@.regs.sp),
        ensures
            (final(self)@, r) == jsr_cycle(old(self)@),
            final(self).wf(),
            final(self).pins() == old(self).pins(),
    {
        match self.cycle {
            2 => {
                self.addr = self.read_pc_byte() as u16;
                self.advance_pc();
                CpuAction::Continue
            },
            3 => CpuAction::Continue,
            4 => {
                self.push_byte(hi_byte(self.pc));
                CpuAction::Continue
            },
            5 => {
                self.push_byte(lo_byte(self.pc));
                CpuAction::Continue
            },
            6 => {
                let b = self.read_pc_byte();
                self.addr = set_hi_byte(self.addr, b);
                self.pc = self.addr;
                CpuAction::Complete
            },
            _ => CpuAction::Complete,
        }
    }

    fn do_rts(&mut self) -> (r: CpuAction)
        requires
            old(self).wf(),
            stack_ok(Instr::Rts, old(self)@.cycle, old(self)@.regs.sp),
        ensures
            (final(self)@, r) == rts_cycle(old(self)@),
            final(self).wf(),
            final(self).pins() == old(self).pins(),
    {
        match self.cycle {
            2 => CpuAction::Continue,
            3 => {
                self.incr_stack();
                CpuAction::Continue
            },
            4 => {
                let b = self.read_stack_byte();
                self.pc = set_lo_byte(self.pc, b);
                self.incr_stack();
                CpuAction::Continue
            },
            5 => {
                let b = self.read_stack_byte();
                self.pc = set_hi_byte(self.pc, b);
                CpuAction::Continue
            },
            6 => {
                self.advance_pc();
                CpuAction::Complete
            },
            _ => CpuAction::Complete,
        }
    }

    fn do_pull(&mut self, status: bool) -> (r: CpuAction)
        requires
            old(self).wf(),
            old(self)@.cycle == 3 ==> old(self)@.regs.sp != 0xFF,
        ensures
            (final(self)@, r) == pull_cycle(old(self)@, status),
            final(self).wf(),
            final(self).pins() == old(self).pins(),
    {
        match self.cycle {
            2 => CpuAction::Continue,
            3 => {
                self.incr_stack();
                CpuAction::Continue
            },
            4 => {
                let b = self.read_stack_byte();
                if status {
                    self.regs.p = b & !(SR_BREAK | SR_UNUSED);
                } else {
                    self.regs.ac = b;
                    self.regs.p = set_nz(self.regs.p, b);
                }
                CpuAction::Complete
            },
            _ => CpuAction::Complete,
        }
    }

    fn do_jmp_abs(&mut self) -> (r: CpuAction)
        requires
            old(self).wf(),
        ensures
            (final(self)@, r) == jmp_abs_cycle(old(self)@),
            final(self).wf(),
            final(self).pins() == old(self).pins(),
    {
        match self.cycle {
            2 => {
                self.addr = self.read_pc_byte() as u16;
                self.advance_pc();
                CpuAction::Continue
            },
            3 => {
                let b = self.read_pc_byte();
                self.addr = self.addr | ((b as u16) << 8u16);
                self.pc = self.addr;
                CpuAction::Complete
            },
            _ => CpuAction::Complete,
        }
    }

    fn do_jmp_abs_indirect(&mut self) -> (r: CpuAction)
        requires
            old(self).wf(),
        ensures
            (final(self)@, r) == jmp_ind_cycle(old(self)@),
            final(self).wf(),
            final(self).pins() == old(self).pins(),
    {
        match self.cycle {
            2 => {
                self.addr = self.read_pc_byte() as u16;
                self.advance_pc();
                CpuAction::Continue
            },
            3 => {
                let b = self.read_pc_byte();
                self.addr = set_hi_byte(self.addr, b);
                self.advance_pc();
                CpuAction::Continue
            },
            4 => {
                self.extra_addr = self.read_byte(self.addr) as u16;
                CpuAction::Continue
            },
            5 => {
                let b = self.read_byte((self.addr & 0xFF00) | (self.addr.wrapping_add(1) & 0xFF));
                self.pc = set_hi_byte(self.extra_addr, b);
                CpuAction::Complete
            },
            _ => CpuAction::Complete,
        }
    }

    fn do_branch(&mut self, c: Cond) -> (r: CpuAction)
        requires
            old(self).wf(),
        ensures
            (final(self)@, r) == branch_cycle(old(self)@, c),
            final(self).wf(),
            final(self).pins() == old(self).pins(),
    {
        match self.cycle {
            2 => {
                let b = self.read_pc_byte();
                self.addr = if b < 0x80 {
                    b as u16
                } else {
                    b as u16 + 0xFF00
                };
                self.advance_pc();
                if test_branch(c, self.regs.p) {
                    CpuAction::Continue
                } else {
                    CpuAction::Complete
                }
            },
            3 => {
                self.addr = self.pc.wrapping_add(self.addr);
                self.pc = set_lo_byte(self.pc, lo_byte(self.addr));
                if self.pc == self.addr {
                    CpuAction::Complete
                } else {
                    CpuAction::Continue
                }
            },
            4 => {
                self.pc = self.addr;
                CpuAction::Complete
            },
            _ => CpuAction::Complete,
        }
    }

    fn do_op(&mut self, op: Operation, start: usize) -> (r: CpuAction)
        requires
            old(self).wf(),
            start <= old(self)@.cycle,
        ensures
            (final(self)@, r) == op_cycle(old(self)@, op, start),
            final(self).wf(),
            final(self).pins() == old(self).pins(),
    {
        let k = self.cycle - start + 1;
        if k == 1 {
            match kind(op) {
                OpKind::Read | OpKind::ReadWrite => {
                    self.value = self.read_byte(self.addr);
                    CpuAction::Continue
                },
                OpKind::Implied => CpuAction::Continue,
                OpKind::Write => {
                    let v = exec_write_op(op, self.regs);
                    self.write_byte(self.addr, v);
                    CpuAction::Complete
                },
            }
        } else if k == 2 {
            match kind(op) {
                OpKind::Read => {
                    self.regs = exec_read_op(op, self.regs, self.value);
                    CpuAction::CompleteAndFetch
                },
                OpKind::Implied => {
                    self.regs = exec_implied_op(op, self.regs);
                    CpuAction::CompleteAndFetch
                },
                OpKind::ReadWrite => {
                    let (regs, v) = exec_rmw_op(op, self.regs, self.value);
                    self.regs = regs;
                    self.value = v;
                    CpuAction::Continue
                },
                OpKind::Write => CpuAction::Complete,
            }
        } else if k == 3 {
            self.write_byte(self.addr, self.value);
            CpuAction::Complete
        } else {
            CpuAction::Complete
        }
    }

    fn do_op_immed(&mut self, op: Operation) -> (r: CpuAction)
        requires
            old(self).wf(),
        ensures
            (final(self)@, r) == immediate_cycle(old(self)@, op),
            final(self).wf(),
            final(self).pins() == old(self).pins(),
    {
        match self.cycle {
            2 => {
                self.value = self.read_pc_byte();
                self.advance_pc();
                CpuAction::Continue
            },
            3 => {
                match kind(op) {
                    OpKind::Read => {
                        self.regs = exec_read_op(op, self.regs, self.value);
                    },
                    OpKind::Implied => {
                        self.regs = exec_implied_op(op, self.regs);
                    },
                    _ => {},
                }
                CpuAction::CompleteAndFetch
            },
            _ => CpuAction::Complete,
        }
    }

    fn do_op_ac(&mut self, op: Operation) -> (r: CpuAction)
        requires
            old(self).wf(),
        ensures
            (final(self)@, r) == accumulator_cycle(old(self)@, op),
            final(self).wf(),
            final(self).pins() == old(self).pins(),
    {
        match self.cycle {
            2 => CpuAction::Continue,
            3 => {
                if kind(op) == OpKind::ReadWrite {
                    let (regs, v) = exec_rmw_op(op, self.regs, self.regs.ac);
                    self.regs = Regs { ac: v, ..regs };
                }
                CpuAction::CompleteAndFetch
            },
            _ => CpuAction::Complete,
        }
    }

    fn do_op_implied(&mut self, op: Operation) -> (r: CpuAction)
        requires
            old(self).wf(),
        ensures
            (final(self)@, r) == implied_cycle(old(self)@, op),
            final(self).wf(),
            final(self).pins() == old(self).pins(),
    {
        match self.cycle {
            2 => CpuAction::Continue,
            3 => {
                if kind(op) == OpKind::Implied {
                    self.regs = exec_implied_op(op, self.regs);
                }
                CpuAction::CompleteAndFetch
            },
            _ => CpuAction::Complete,
        }
    }

    fn do_op_zeropage(&mut self, op: Operation) -> (r: CpuAction)
        requires
            old(self).wf(),
            old(self)@.cycle >= 2,
        ensures
            (final(self)@, r) == zeropage_cycle(old(self)@, op),
            final(self).wf(),
            final(self).pins() == old(self).pins(),
    {
        if self.cycle == 2 {
            self.addr = self.read_pc_byte() as u16;
            self.advance_pc();
            CpuAction::Continue
        } else {
            self.do_op(op, 3)
        }
    }

    fn do_op_zeropage_indexed(&mut self, op: Operation, index: u8) -> (r: CpuAction)
        requires
            old(self).wf(),
            old(self)@.cycle >= 2,
        ensures
            (final(self)@, r) == zeropage_indexed_cycle(old(self)@, op, index),
            final(self).wf(),
            final(self).pins() == old(self).pins(),
    {
        if self.cycle == 2 {
            self.addr = self.read_pc_byte() as u16;
            self.advance_pc();
            CpuAction::Continue
        } else if self.cycle == 3 {
            self.addr = self.addr.wrapping_add(index as u16) & 0xFF;
            CpuAction::Continue
        } else {
            self.do_op(op, 4)
        }
    }

    fn do_op_abs(&mut self, op: Operation) -> (r: CpuAction)
        requires
            old(self).wf(),
            old(self)@.cycle >= 2,
        ensures
            (final(self)@, r) == absolute_cycle(old(self)@, op),
            final(self).wf(),
            final(self).pins() == old(self).pins(),
    {
        if self.cycle == 2 {
            let b = self.read_pc_byte();
            self.addr = set_lo_byte(self.addr, b);
            self.advance_pc();
            CpuAction::Continue
        } else if self.cycle == 3 {
            let b = self.read_pc_byte();
            self.addr = set_hi_byte(self.addr, b);
            self.advance_pc();
            CpuAction::Continue
        } else {
            self.do_op(op, 4)
        }
    }

    fn do_op_abs_indexed(&mut self, op: Operation, index: u8) -> (r: CpuAction)
        requires
            old(self).wf(),
            old(self)@.cycle >= 2,
        ensures
            (final(self)@, r) == absolute_indexed_cycle(old(self)@, op, index),
            final(self).wf(),
            final(self).pins() == old(self).pins(),
    {
        let k = kind(op);
        let fast = (k == OpKind::Read || k == OpKind::Implied) && self.extra_addr == 0;
        if self.cycle == 2 {
            self.addr = self.read_pc_byte() as u16;
            self.advance_pc();
            CpuAction::Continue
        } else if self.cycle == 3 {
            let a = self.addr.wrapping_add(index as u16);
            let b = self.read_pc_byte();
            self.addr = set_hi_byte(a & 0xFF, b);
            self.extra_addr = a & 0x100;
            self.advance_pc();
            CpuAction::Continue
        } else if self.cycle == 4 {
            if fast {
                self.do_op(op, 4)
            } else {
                self.addr = self.addr.wrapping_add(self.extra_addr);
                CpuAction::Continue
            }
        } else {
            self.do_op(
                op,
                if fast {
                    4
                } else {
                    5
                },
            )
        }
    }

    fn do_op_indexed_indirect(&mut self, op: Operation) -> (r: CpuAction)
        requires
            old(self).wf(),
            old(self)@.cycle >= 2,
        ensures
            (final(self)@, r) == indexed_indirect_cycle(old(self)@, op),
            final(self).wf(),
            final(self).pins() == old(self).pins(),
    {
        if self.cycle == 2 {
            self.extra_addr = self.read_pc_byte() as u16;
            self.advance_pc();
            CpuAction::Continue
        } else if self.cycle == 3 {
            self.extra_addr = self.extra_addr.wrapping_add(self.regs.x as u16) & 0xFF;
            CpuAction::Continue
        } else if self.cycle == 4 {
            let b = self.read_byte(self.extra_addr);
            self.addr = set_lo_byte(self.addr, b);
            self.extra_addr = self.extra_addr.wrapping_add(1) & 0xFF;
            CpuAction::Continue
        } else if self.cycle == 5 {
            let b = self.read_byte(self.extra_addr);
            self.addr = set_hi_byte(self.addr, b);
            CpuAction::Continue
        } else {
            self.do_op(op, 6)
        }
    }

    fn do_op_indirect_indexed(&mut self, op: Operation) -> (r: CpuAction)
        requires
            old(self).wf(),
            old(self)@.cycle >= 2,
        ensures
            (final(self)@, r) == indirect_indexed_cycle(old(self)@, op),
            final(self).wf(),
            final(self).pins() == old(self).pins(),
    {
        let k = kind(op);
        let fast = (k == OpKind::Read || k == OpKind::Implied) && self.extra_addr == 0;
        if self.cycle == 2 {
            self.extra_addr = self.read_pc_byte() as u16;
            self.advance_pc();
            CpuAction::Continue
        } else if self.cycle == 3 {
            self.addr = self.read_byte(self.extra_addr) as u16;
            CpuAction::Continue
        } else if self.cycle == 4 {
            let a = self.addr.wrapping_add(self.regs.y as u16);
            let h = self.read_byte(self.extra_addr.wrapping_add(1) & 0xFF);
            self.addr = set_hi_byte(set_lo_byte(self.addr, (a & 0xFF) as u8), h);
            self.extra_addr = a & 0x100;
            CpuAction::Continue
        } else if self.cycle == 5 {
            if fast {
                self.do_op(op, 5)
            } else {
                self.addr = self.addr.wrapping_add(self.extra_addr);
                CpuAction::Continue
            }
        } else {
            self.do_op(
                op,
                if fast {
                    5
                } else {
                    6
                },
            )
        }
    }

    fn do_instr(&mut self, i: Instr) -> (r: CpuAction)
        requires
            old(self).wf(),
            old(self)@.cycle >= 2,
            stack_ok(i, old(self)@.cycle, old(self)@.regs.sp),
        ensures
            (final(self)@, r) == instr_cycle(old(self)@, i),
            final(self).wf(),
            final(self).pins() == old(self).pins(),
    {
        match i {
            Instr::Alu(mode, op) => match mode {
                Mode::Immediate => self.do_op_immed(op),
                Mode::Accumulator => self.do_op_ac(op),
                Mode::Implied => self.do_op_implied(op),
                Mode::ZeroPage => self.do_op_zeropage(op),
                Mode::ZeroPageX => self.do_op_zeropage_indexed(op, self.regs.x),
                Mode::ZeroPageY => self.do_op_zeropage_indexed(op, self.regs.y),
                Mode::Absolute => self.do_op_abs(op),
                Mode::AbsoluteX => self.do_op_abs_indexed(op, self.regs.x),
                Mode::AbsoluteY => self.do_op_abs_indexed(op, self.regs.y),
                Mode::IndexedIndirect => self.do_op_indexed_indirect(op),
                Mode::IndirectIndexed => self.do_op_indirect_indexed(op),
            },
            Instr::Brk => self.do_brk(),
            Instr::Rti => self.do_rti(),
            Instr::Rts => self.do_rts(),
            Instr::Jsr => self.do_jsr(),
            Instr::Pha => self.do_push(self.regs.ac),
            Instr::Php => self.do_push(self.regs.p | SR_BREAK | SR_UNUSED),
            Instr::Pla => self.do_pull(false),
            Instr::Plp => self.do_pull(true),
            Instr::JmpAbs => self.do_jmp_abs(),
            Instr::JmpInd => self.do_jmp_abs_indirect(),
            Instr::Branch(c) => self.do_branch(c),
        }
    }

    /// Advances the CPU by exactly one T-state.
    pub fn step(&mut self) -> (r: CpuAction)
        requires
            old(self).wf(),
            step_ok(old(self)@),
        ensures
            (final(self)@, r) == step_model(old(self)@),
            final(self).wf(),
            final(self).pins() == old(self).pins(),
    {
        reveal(step_model);
        match self.state {
            CpuState::Off => CpuAction::Continue,
            CpuState::Resetting => {
                let done = self.cycle == 8;
                self.do_reset_sequence();
                if done {
                    self.state = CpuState::Running;
                    self.cycle = 1;
                    CpuAction::Complete
                } else {
                    self.cycle = self.cycle + 1;
                    CpuAction::Continue
                }
            },
            CpuState::Running => {
                if self.cycle == 1 {
                    self.opcode = self.read_pc_byte();
                    self.advance_pc();
                    self.cycle = 2;
                    return CpuAction::Continue;
                }
                match decode(self.opcode) {
                    Some(i) => {
                        let ghost s = self@;
                        let a = self.do_instr(i);
                        proof {
                            crate::model::lemma_continue_bound(s, i);
                        }
                        match a {
                            CpuAction::Continue => {
                                self.cycle = self.cycle + 1;
                            },
                            CpuAction::Complete => {
                                self.cycle = 1;
                            },
                            CpuAction::CompleteAndFetch => {
                                self.opcode = self.read_pc_byte();
                                self.advance_pc();
                                self.cycle = 2;
                            },
                        }
                        a
                    },
                    None => CpuAction::Complete,
                }
            },
        }
    }

    /// Handles one edge of the input clock: the phase outputs follow it
    /// (phase one inverted, phase two as is) and a rising edge runs one T-state.
    pub fn clock_edge(&mut self, signal: bool) -> (r: Option<CpuAction>)
        requires
            old(self).wf(),
            !(old(self).pins().1 is Input),
            !(old(self).pins().2 is Input),
            signal ==> step_ok(old(self)@),
        ensures
            final(self).wf(),
            final(self).pins().0 == old(self).pins().0,
            final(self).pins().1.latched() == !signal,
            final(self).pins().2.latched() == signal,
            signal ==> r == Some(step_model(old(self)@).1) && final(self)@ == step_model(
                old(self)@,
            ).0,
            !signal ==> r is None && final(self)@ == old(self)@,
    {
        self.phi1_out.update(!signal);
        self.phi2_out.update(signal);
        if signal {
            Some(self.step())
        } else {
            None
        }
    }
}

} // verus!
