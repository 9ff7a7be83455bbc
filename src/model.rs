//! The T-state level behaviour of the 6502, as a transition function on an
//! abstract machine state.

use crate::decode::{spec_decode, Cond, Instr, Mode};
use crate::memory::MemView;
use crate::ops::{
    flag, implied_op, read_op, rmw_op, rmw_value, spec_kind, with_flag, with_nz, write_value,
    OpKind, Operation, Regs, SR_BREAK, SR_CARRY, SR_INTERRUPT_MASK, SR_NEGATIVE, SR_OVERFLOW,
    SR_UNUSED, SR_ZERO,
};
use vstd::prelude::*;

verus! {

pub const STACK_BASE: u16 = 0x0100;
pub const NMI_VECTOR: u16 = 0xFFFA;
pub const RESET_VECTOR: u16 = 0xFFFC;
pub const IRQ_VECTOR: u16 = 0xFFFE;

/// The lifecycle of the CPU.
#[derive(Clone, Copy, Debug, PartialEq, Eq, Structural)]
pub enum CpuState {
    Off,
    Resetting,
    Running,
}

/// What one T-state did to the instruction in flight.
#[derive(Clone, Copy, Debug, PartialEq, Eq, Structural)]
pub enum CpuAction {
    /// The instruction needs more cycles.
    Continue,
    /// The instruction finished; the next step fetches an opcode.
    Complete,
    /// The instruction finished and this same T-state fetched the next opcode.
    CompleteAndFetch,
}

/// The whole machine state the CPU sees: registers, working state and memory.
pub struct CpuModel {
    pub regs: Regs,
    pub pc: u16,
    pub cycle: usize,
    pub opcode: u8,
    pub value: u8,
    pub addr: u16,
    pub extra_addr: u16,
    pub state: CpuState,
    pub mem: MemView,
}

impl CpuModel {
    pub open spec fn wf(self) -> bool {
        &&& self.mem.wf()
        &&& 1 <= self.cycle <= 8
    }

    pub open spec fn with_regs(self, regs: Regs) -> CpuModel {
        CpuModel { regs, ..self }
    }

    pub open spec fn pc_byte(self) -> u8 {
        self.mem.read(self.pc)
    }

    pub open spec fn stack_addr(self) -> u16 {
        (STACK_BASE + self.regs.sp) as u16
    }

    pub open spec fn stack_byte(self) -> u8 {
        self.mem.read(self.stack_addr())
    }

    /// Stores `v` at the stack pointer and moves the pointer down.
    pub open spec fn push(self, v: u8) -> CpuModel {
        CpuModel {
            mem: self.mem.write(self.stack_addr(), v),
            regs: Regs { sp: (self.regs.sp - 1) as u8, ..self.regs },
            ..self
        }
    }

    /// Moves the stack pointer up.
    pub open spec fn incr_stack(self) -> CpuModel {
        CpuModel { regs: Regs { sp: (self.regs.sp + 1) as u8, ..self.regs }, ..self }
    }

    pub open spec fn advance_pc(self) -> CpuModel {
        CpuModel { pc: self.pc.wrapping_add(1), ..self }
    }

    /// Reads the opcode at PC and moves past it.
    pub open spec fn fetch(self) -> CpuModel {
        CpuModel { opcode: self.pc_byte(), pc: self.pc.wrapping_add(1), cycle: 2, ..self }
    }
}

pub open spec fn lo(x: u16) -> u8 {
    (x & 0xFF) as u8
}

pub open spec fn hi(x: u16) -> u8 {
    (x >> 8) as u8
}

pub open spec fn set_lo(x: u16, v: u8) -> u16 {
    (x & 0xFF00) | (v as u16)
}

pub open spec fn set_hi(x: u16, v: u8) -> u16 {
    (x & 0x00FF) | ((v as u16) << 8u16)
}

/// A branch offset byte, sign-extended to 16 bits.
pub open spec fn sign_extend(b: u8) -> u16 {
    if b < 0x80 {
        b as u16
    } else {
        (b as u16 + 0xFF00) as u16
    }
}

pub open spec fn branch_taken(c: Cond, p: u8) -> bool {
    match c {
        Cond::Pl => !flag(p, SR_NEGATIVE),
        Cond::Mi => flag(p, SR_NEGATIVE),
        Cond::Vc => !flag(p, SR_OVERFLOW),
        Cond::Vs => flag(p, SR_OVERFLOW),
        Cond::Cc => !flag(p, SR_CARRY),
        Cond::Cs => flag(p, SR_CARRY),
        Cond::Ne => !flag(p, SR_ZERO),
        Cond::Eq => flag(p, SR_ZERO),
    }
}

/// The status byte as pulled from the stack: Break and Unused dropped.
pub open spec fn pulled_status(b: u8) -> u8 {
    b & !(SR_BREAK | SR_UNUSED)
}

/// The status byte as pushed: Break and Unused set.
pub open spec fn pushed_status(p: u8) -> u8 {
    p | SR_BREAK | SR_UNUSED
}

pub type Outcome = (CpuModel, CpuAction);

/// Interrupt entry between instructions: pushes PC (high byte first) and the
/// status with Break clear and Unused set, masks further interrupts and
/// jumps through `vector`.
pub open spec fn interrupt(s: CpuModel, vector: u16) -> CpuModel {
    let t = s.push(hi(s.pc)).push(lo(s.pc)).push((s.regs.p & !SR_BREAK) | SR_UNUSED);
    CpuModel {
        regs: Regs { p: with_flag(t.regs.p, SR_INTERRUPT_MASK, true), ..t.regs },
        pc: set_hi(set_lo(t.pc, t.mem.read(vector)), t.mem.read(vector.wrapping_add(1))),
        ..t
    }
}

/// One cycle of the reset sequence, before the cycle counter moves.
pub open spec fn reset_cycle(s: CpuModel) -> CpuModel {
    match s.cycle {
        1 => s.with_regs(Regs { sp: 0x00, ..s.regs }),
        4 => s.with_regs(Regs { sp: 0xFF, ..s.regs }),
        5 => s.with_regs(Regs { sp: 0xFE, ..s.regs }),
        6 => s.with_regs(Regs { sp: 0xFD, ..s.regs }),
        7 => CpuModel { pc: set_lo(s.pc, s.mem.read(RESET_VECTOR)), ..s },
        8 => CpuModel { pc: set_hi(s.pc, s.mem.read((RESET_VECTOR + 1) as u16)), ..s },
        _ => s,
    }
}

pub open spec fn brk_cycle(s: CpuModel) -> Outcome {
    match s.cycle {
        2 => (s.advance_pc(), CpuAction::Continue),
        3 => (s.push(hi(s.pc)), CpuAction::Continue),
        4 => (s.push(lo(s.pc)), CpuAction::Continue),
        5 => (s.push(pushed_status(s.regs.p)), CpuAction::Continue),
        6 => (CpuModel { pc: set_lo(s.pc, s.mem.read(IRQ_VECTOR)), ..s }, CpuAction::Continue),
        7 => (
            CpuModel { pc: set_hi(s.pc, s.mem.read((IRQ_VECTOR + 1) as u16)), ..s },
            CpuAction::Complete,
        ),
        _ => (s, CpuAction::Complete),
    }
}

pub open spec fn rti_cycle(s: CpuModel) -> Outcome {
    match s.cycle {
        2 => (s, CpuAction::Continue),
        3 => (s.incr_stack(), CpuAction::Continue),
        4 => (
            s.with_regs(Regs { p: pulled_status(s.stack_byte()), ..s.regs }).incr_stack(),
            CpuAction::Continue,
        ),
        5 => (CpuModel { pc: set_lo(s.pc, s.stack_byte()), ..s }.incr_stack(), CpuAction::Continue),
        6 => (CpuModel { pc: set_hi(s.pc, s.stack_byte()), ..s }, CpuAction::Complete),
        _ => (s, CpuAction::Complete),
    }
}

pub open spec fn push_cycle(s: CpuModel, v: u8) -> Outcome {
    match s.cycle {
        2 => (s, CpuAction::Continue),
        3 => (s.push(v), CpuAction::Complete),
        _ => (s, CpuAction::Complete),
    }
}

pub open spec fn jsr_cycle(s: CpuModel) -> Outcome {
    match s.cycle {
        2 => (CpuModel { addr: s.pc_byte() as u16, ..s }.advance_pc(), CpuAction::Continue),
        3 => (s, CpuAction::Continue),
        4 => (s.push(hi(s.pc)), CpuAction::Continue),
        5 => (s.push(lo(s.pc)), CpuAction::Continue),
        6 => {
            let a = set_hi(s.addr, s.pc_byte());
            (CpuModel { addr: a, pc: a, ..s }, CpuAction::Complete)
        },
        _ => (s, CpuAction::Complete),
    }
}

pub open spec fn rts_cycle(s: CpuModel) -> Outcome {
    match s.cycle {
        2 => (s, CpuAction::Continue),
        3 => (s.incr_stack(), CpuAction::Continue),
        4 => (CpuModel { pc: set_lo(s.pc, s.stack_byte()), ..s }.incr_stack(), CpuAction::Continue),
        5 => (CpuModel { pc: set_hi(s.pc, s.stack_byte()), ..s }, CpuAction::Continue),
        6 => (s.advance_pc(), CpuAction::Complete),
        _ => (s, CpuAction::Complete),
    }
}

/// PLA (`status == false`) or PLP (`status == true`).
pub open spec fn pull_cycle(s: CpuModel, status: bool) -> Outcome {
    match s.cycle {
        2 => (s, CpuAction::Continue),
        3 => (s.incr_stack(), CpuAction::Continue),
        4 => if status {
            (s.with_regs(Regs { p: pulled_status(s.stack_byte()), ..s.regs }), CpuAction::Complete)
        } else {
            (
                s.with_regs(
                    Regs { ac: s.stack_byte(), p: with_nz(s.regs.p, s.stack_byte()), ..s.regs },
                ),
                CpuAction::Complete,
            )
        },
        _ => (s, CpuAction::Complete),
    }
}

pub open spec fn jmp_abs_cycle(s: CpuModel) -> Outcome {
    match s.cycle {
        2 => (CpuModel { addr: s.pc_byte() as u16, ..s }.advance_pc(), CpuAction::Continue),
        3 => {
            let a = s.addr | ((s.pc_byte() as u16) << 8u16);
            (CpuModel { addr: a, pc: a, ..s }, CpuAction::Complete)
        },
        _ => (s, CpuAction::Complete),
    }
}

/// The address JMP indirect reads the high byte of its target from: the
/// pointer's successor within the same page.
pub open spec fn jmp_ind_high_addr(ptr: u16) -> u16 {
    (ptr & 0xFF00) | (ptr.wrapping_add(1) & 0xFF)
}

pub open spec fn jmp_ind_cycle(s: CpuModel) -> Outcome {
    match s.cycle {
        2 => (CpuModel { addr: s.pc_byte() as u16, ..s }.advance_pc(), CpuAction::Continue),
        3 => (CpuModel { addr: set_hi(s.addr, s.pc_byte()), ..s }.advance_pc(), CpuAction::Continue),
        4 => (CpuModel { extra_addr: s.mem.read(s.addr) as u16, ..s }, CpuAction::Continue),
        5 => (
            CpuModel { pc: set_hi(s.extra_addr, s.mem.read(jmp_ind_high_addr(s.addr))), ..s },
            CpuAction::Complete,
        ),
        _ => (s, CpuAction::Complete),
    }
}

pub open spec fn branch_cycle(s: CpuModel, c: Cond) -> Outcome {
    match s.cycle {
        2 => (
            CpuModel { addr: sign_extend(s.pc_byte()), ..s }.advance_pc(),
            if branch_taken(c, s.regs.p) {
                CpuAction::Continue
            } else {
                CpuAction::Complete
            },
        ),
        3 => {
            let a = s.pc.wrapping_add(s.addr);
            let pc = set_lo(s.pc, lo(a));
            (
                CpuModel { addr: a, pc, ..s },
                if pc == a {
                    CpuAction::Complete
                } else {
                    CpuAction::Continue
                },
            )
        },
        4 => (CpuModel { pc: s.addr, ..s }, CpuAction::Complete),
        _ => (s, CpuAction::Complete),
    }
}

/// The cycles of an operation once its effective address is in `addr`;
/// `start` is the cycle at which that began.
pub open spec fn op_cycle(s: CpuModel, op: Operation, start: usize) -> Outcome {
    let k = s.cycle - start + 1;
    if k == 1 {
        match spec_kind(op) {
            OpKind::Read | OpKind::ReadWrite => (
                CpuModel { value: s.mem.read(s.addr), ..s },
                CpuAction::Continue,
            ),
            OpKind::Implied => (s, CpuAction::Continue),
            OpKind::Write => (
                CpuModel { mem: s.mem.write(s.addr, write_value(op, s.regs)), ..s },
                CpuAction::Complete,
            ),
        }
    } else if k == 2 {
        match spec_kind(op) {
            OpKind::Read => (s.with_regs(read_op(op, s.regs, s.value)), CpuAction::CompleteAndFetch),
            OpKind::Implied => (s.with_regs(implied_op(op, s.regs)), CpuAction::CompleteAndFetch),
            OpKind::ReadWrite => (
                CpuModel {
                    regs: rmw_op(op, s.regs, s.value),
                    value: rmw_value(op, s.regs, s.value),
                    ..s
                },
                CpuAction::Continue,
            ),
            OpKind::Write => (s, CpuAction::Complete),
        }
    } else if k == 3 {
        (CpuModel { mem: s.mem.write(s.addr, s.value), ..s }, CpuAction::Complete)
    } else {
        (s, CpuAction::Complete)
    }
}

pub open spec fn is_read_or_implied(op: Operation) -> bool {
    spec_kind(op) == OpKind::Read || spec_kind(op) == OpKind::Implied
}

pub open spec fn immediate_cycle(s: CpuModel, op: Operation) -> Outcome {
    match s.cycle {
        2 => (CpuModel { value: s.pc_byte(), ..s }.advance_pc(), CpuAction::Continue),
        3 => (
            match spec_kind(op) {
                OpKind::Read => s.with_regs(read_op(op, s.regs, s.value)),
                OpKind::Implied => s.with_regs(implied_op(op, s.regs)),
                _ => s,
            },
            CpuAction::CompleteAndFetch,
        ),
        _ => (s, CpuAction::Complete),
    }
}

pub open spec fn accumulator_cycle(s: CpuModel, op: Operation) -> Outcome {
    match s.cycle {
        2 => (s, CpuAction::Continue),
        3 => (
            if spec_kind(op) == OpKind::ReadWrite {
                s.with_regs(
                    Regs { ac: rmw_value(op, s.regs, s.regs.ac), ..rmw_op(op, s.regs, s.regs.ac) },
                )
            } else {
                s
            },
            CpuAction::CompleteAndFetch,
        ),
        _ => (s, CpuAction::Complete),
    }
}

pub open spec fn implied_cycle(s: CpuModel, op: Operation) -> Outcome {
    match s.cycle {
        2 => (s, CpuAction::Continue),
        3 => (
            if spec_kind(op) == OpKind::Implied {
                s.with_regs(implied_op(op, s.regs))
            } else {
                s
            },
            CpuAction::CompleteAndFetch,
        ),
        _ => (s, CpuAction::Complete),
    }
}

pub open spec fn zeropage_cycle(s: CpuModel, op: Operation) -> Outcome {
    if s.cycle == 2 {
        (CpuModel { addr: s.pc_byte() as u16, ..s }.advance_pc(), CpuAction::Continue)
    } else {
        op_cycle(s, op, 3)
    }
}

pub open spec fn zeropage_indexed_cycle(s: CpuModel, op: Operation, index: u8) -> Outcome {
    if s.cycle == 2 {
        (CpuModel { addr: s.pc_byte() as u16, ..s }.advance_pc(), CpuAction::Continue)
    } else if s.cycle == 3 {
        (CpuModel { addr: s.addr.wrapping_add(index as u16) & 0xFF, ..s }, CpuAction::Continue)
    } else {
        op_cycle(s, op, 4)
    }
}

pub open spec fn absolute_cycle(s: CpuModel, op: Operation) -> Outcome {
    if s.cycle == 2 {
        (CpuModel { addr: set_lo(s.addr, s.pc_byte()), ..s }.advance_pc(), CpuAction::Continue)
    } else if s.cycle == 3 {
        (CpuModel { addr: set_hi(s.addr, s.pc_byte()), ..s }.advance_pc(), CpuAction::Continue)
    } else {
        op_cycle(s, op, 4)
    }
}

pub open spec fn absolute_indexed_cycle(s: CpuModel, op: Operation, index: u8) -> Outcome {
    let fast = is_read_or_implied(op) && s.extra_addr == 0;
    if s.cycle == 2 {
        (CpuModel { addr: s.pc_byte() as u16, ..s }.advance_pc(), CpuAction::Continue)
    } else if s.cycle == 3 {
        let a = s.addr.wrapping_add(index as u16);
        (
            CpuModel { addr: set_hi(a & 0xFF, s.pc_byte()), extra_addr: a & 0x100, ..s }.advance_pc(),
            CpuAction::Continue,
        )
    } else if s.cycle == 4 {
        if fast {
            op_cycle(s, op, 4)
        } else {
            (CpuModel { addr: s.addr.wrapping_add(s.extra_addr), ..s }, CpuAction::Continue)
        }
    } else {
        op_cycle(
            s,
            op,
            if fast {
                4
            } else {
                5
            },
        )
    }
}

pub open spec fn indexed_indirect_cycle(s: CpuModel, op: Operation) -> Outcome {
    if s.cycle == 2 {
        (CpuModel { extra_addr: s.pc_byte() as u16, ..s }.advance_pc(), CpuAction::Continue)
    } else if s.cycle == 3 {
        (
            CpuModel { extra_addr: s.extra_addr.wrapping_add(s.regs.x as u16) & 0xFF, ..s },
            CpuAction::Continue,
        )
    } else if s.cycle == 4 {
        (
            CpuModel {
                addr: set_lo(s.addr, s.mem.read(s.extra_addr)),
                extra_addr: s.extra_addr.wrapping_add(1) & 0xFF,
                ..s
            },
            CpuAction::Continue,
        )
    } else if s.cycle == 5 {
        (CpuModel { addr: set_hi(s.addr, s.mem.read(s.extra_addr)), ..s }, CpuAction::Continue)
    } else {
        op_cycle(s, op, 6)
    }
}

pub open spec fn indirect_indexed_cycle(s: CpuModel, op: Operation) -> Outcome {
    let fast = is_read_or_implied(op) && s.extra_addr == 0;
    if s.cycle == 2 {
        (CpuModel { extra_addr: s.pc_byte() as u16, ..s }.advance_pc(), CpuAction::Continue)
    } else if s.cycle == 3 {
        (CpuModel { addr: s.mem.read(s.extra_addr) as u16, ..s }, CpuAction::Continue)
    } else if s.cycle == 4 {
        let a = s.addr.wrapping_add(s.regs.y as u16);
        let h = s.mem.read(s.extra_addr.wrapping_add(1) & 0xFF);
        (
            CpuModel { addr: set_hi(set_lo(s.addr, (a & 0xFF) as u8), h), extra_addr: a & 0x100, ..s },
            CpuAction::Continue,
        )
    } else if s.cycle == 5 {
        if fast {
            op_cycle(s, op, 5)
        } else {
            (CpuModel { addr: s.addr.wrapping_add(s.extra_addr), ..s }, CpuAction::Continue)
        }
    } else {
        op_cycle(
            s,
            op,
            if fast {
                5
            } else {
                6
            },
        )
    }
}

pub open spec fn alu_cycle(s: CpuModel, mode: Mode, op: Operation) -> Outcome {
    match mode {
        Mode::Immediate => immediate_cycle(s, op),
        Mode::Accumulator => accumulator_cycle(s, op),
        Mode::Implied => implied_cycle(s, op),
        Mode::ZeroPage => zeropage_cycle(s, op),
        Mode::ZeroPageX => zeropage_indexed_cycle(s, op, s.regs.x),
        Mode::ZeroPageY => zeropage_indexed_cycle(s, op, s.regs.y),
        Mode::Absolute => absolute_cycle(s, op),
        Mode::AbsoluteX => absolute_indexed_cycle(s, op, s.regs.x),
        Mode::AbsoluteY => absolute_indexed_cycle(s, op, s.regs.y),
        Mode::IndexedIndirect => indexed_indirect_cycle(s, op),
        Mode::IndirectIndexed => indirect_indexed_cycle(s, op),
    }
}

/// One T-state of a decoded instruction, before the cycle counter moves.
pub open spec fn instr_cycle(s: CpuModel, i: Instr) -> Outcome {
    match i {
        Instr::Alu(mode, op) => alu_cycle(s, mode, op),
        Instr::Brk => brk_cycle(s),
        Instr::Rti => rti_cycle(s),
        Instr::Rts => rts_cycle(s),
        Instr::Jsr => jsr_cycle(s),
        Instr::Pha => push_cycle(s, s.regs.ac),
        Instr::Php => push_cycle(s, pushed_status(s.regs.p)),
        Instr::Pla => pull_cycle(s, false),
        Instr::Plp => pull_cycle(s, true),
        Instr::JmpAbs => jmp_abs_cycle(s),
        Instr::JmpInd => jmp_ind_cycle(s),
        Instr::Branch(c) => branch_cycle(s, c),
    }
}

/// Moves the cycle counter as the action says.
pub open spec fn finish(t: CpuModel, a: CpuAction) -> CpuModel {
    match a {
        CpuAction::Continue => CpuModel { cycle: (t.cycle + 1) as usize, ..t },
        CpuAction::Complete => CpuModel { cycle: 1, ..t },
        CpuAction::CompleteAndFetch => t.fetch(),
    }
}

/// One T-state of the CPU.
#[verifier::opaque]
pub open spec fn step_model(s: CpuModel) -> Outcome {
    match s.state {
        CpuState::Off => (s, CpuAction::Continue),
        CpuState::Resetting => {
            let t = reset_cycle(s);
            if s.cycle == 8 {
                (CpuModel { state: CpuState::Running, cycle: 1, ..t }, CpuAction::Complete)
            } else {
                (CpuModel { cycle: (s.cycle + 1) as usize, ..t }, CpuAction::Continue)
            }
        },
        CpuState::Running => if s.cycle == 1 {
            (s.fetch(), CpuAction::Continue)
        } else {
            match spec_decode(s.opcode) {
                Some(i) => {
                    let (t, a) = instr_cycle(s, i);
                    (finish(t, a), a)
                },
                None => (s, CpuAction::Complete),
            }
        },
    }
}

/// Whether this cycle of `i` keeps the stack pointer in range: a push needs
/// room below, a pull needs a byte above.
pub open spec fn stack_ok(i: Instr, cycle: usize, sp: u8) -> bool {
    match i {
        Instr::Brk => 3 <= cycle <= 5 ==> sp != 0,
        Instr::Jsr => 4 <= cycle <= 5 ==> sp != 0,
        Instr::Pha | Instr::Php => cycle == 3 ==> sp != 0,
        Instr::Rti => 3 <= cycle <= 5 ==> sp != 0xFF,
        Instr::Rts => 3 <= cycle <= 4 ==> sp != 0xFF,
        Instr::Pla | Instr::Plp => cycle == 3 ==> sp != 0xFF,
        _ => true,
    }
}

/// Whether the next T-state is defined: the opcode in flight is implemented
/// and the stack neither overflows nor underflows.
pub open spec fn step_ok(s: CpuModel) -> bool {
    s.state == CpuState::Running && s.cycle != 1 ==> match spec_decode(s.opcode) {
        Some(i) => stack_ok(i, s.cycle, s.regs.sp),
        None => false,
    }
}

/// A T-state of the reset sequence.
pub proof fn lemma_step_reset(s: CpuModel)
    requires
        s.state == CpuState::Resetting,
    ensures
        step_model(s) == if s.cycle == 8 {
            (CpuModel { state: CpuState::Running, cycle: 1, ..reset_cycle(s) }, CpuAction::Complete)
        } else {
            (CpuModel { cycle: (s.cycle + 1) as usize, ..reset_cycle(s) }, CpuAction::Continue)
        },
{
    reveal(step_model);
}

/// A T-state with no opcode in flight fetches one.
pub proof fn lemma_step_fetch(s: CpuModel)
    requires
        s.state == CpuState::Running,
        s.cycle == 1,
    ensures
        step_model(s) == (s.fetch(), CpuAction::Continue),
{
    reveal(step_model);
}

/// A T-state with an opcode in flight runs the next cycle of its instruction.
pub proof fn lemma_step_instr(s: CpuModel, i: Instr)
    requires
        s.state == CpuState::Running,
        s.cycle != 1,
        spec_decode(s.opcode) == Some(i),
    ensures
        step_model(s) == (finish(instr_cycle(s, i).0, instr_cycle(s, i).1), instr_cycle(s, i).1),
{
    reveal(step_model);
}

/// A decoded instruction asks for another cycle only below the last cycle
/// the counter can hold, and leaves the counter, the lifecycle state and the
/// opcode alone.
pub proof fn lemma_continue_bound(s: CpuModel, i: Instr)
    requires
        s.cycle >= 2,
    ensures
        instr_cycle(s, i).1 == CpuAction::Continue ==> s.cycle <= 7,
        instr_cycle(s, i).0.cycle == s.cycle,
        instr_cycle(s, i).0.state == s.state,
        instr_cycle(s, i).0.opcode == s.opcode,
{
}

} // verus!
