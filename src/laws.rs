//! Instruction-level properties of the T-state machine: what a whole
//! instruction does and how many T-states it takes.

use crate::decode::{lemma_decode_fits, spec_decode, Cond, Instr, Mode};
use crate::memory::MemView;
use crate::model::{
    branch_taken, hi, jmp_ind_high_addr, lemma_continue_bound, lemma_step_fetch, lemma_step_instr, lemma_step_reset, lo, pulled_status,
    pushed_status, set_hi, set_lo, sign_extend, step_model, step_ok, CpuAction, CpuModel, CpuState, Outcome,
};
use crate::ops::{
    implied_op, read_op, rmw_op, rmw_value, spec_kind, write_value, OpKind, Operation, Regs,
    SR_BREAK, SR_UNUSED,
};
use vstd::prelude::*;

verus! {

/// The outcome of `n` T-states from `s`; the action is that of the last one.
pub open spec fn run(s: CpuModel, n: nat) -> Outcome
    decreases n,
{
    if n == 0 {
        (s, CpuAction::Continue)
    } else {
        step_model(run(s, (n - 1) as nat).0)
    }
}

/// The instruction begun at `s` finishes on exactly the `n`-th T-state.
pub open spec fn takes(s: CpuModel, n: nat) -> bool {
    &&& forall|k: nat| 1 <= k < n ==> #[trigger] run(s, k).1 == CpuAction::Continue
    &&& run(s, n).1 != CpuAction::Continue
}

/// The bus cycles an instruction that finishes on its `n`-th T-state counts:
/// a finishing T-state that also fetched the next opcode belongs to the next one.
pub open spec fn cycles(s: CpuModel, n: nat) -> int {
    if run(s, n).1 == CpuAction::CompleteAndFetch {
        n - 1
    } else {
        n as int
    }
}

/// A state between instructions: running, with no opcode in flight.
pub open spec fn boundary(s: CpuModel) -> bool {
    &&& s.wf()
    &&& s.state == CpuState::Running
    &&& s.cycle == 1
}

/// The address `k` bytes past PC.
pub open spec fn pc_plus(s: CpuModel, k: int) -> u16 {
    ((s.pc + k) % 65536) as u16
}

/// The instruction byte `k` bytes past PC.
pub open spec fn operand(s: CpuModel, k: int) -> u8 {
    s.mem.read(pc_plus(s, k))
}

/// After `n` T-states from `s` the instruction is over, leaving `regs`, `mem`
/// and the next instruction at `next`: either no opcode in flight, or the
/// next opcode already fetched.
pub open spec fn ends_at(s: CpuModel, n: nat, regs: Regs, mem: MemView, next: u16) -> bool {
    let (t, a) = run(s, n);
    &&& takes(s, n)
    &&& t.wf()
    &&& t.state == CpuState::Running
    &&& t.regs == regs
    &&& t.mem == mem
    &&& a == CpuAction::Complete ==> t.cycle == 1 && t.pc == next
    &&& a == CpuAction::CompleteAndFetch ==> t.cycle == 2 && t.opcode == mem.read(next)
        && t.pc == next.wrapping_add(1)
}

/// The registers after an operation on the operand at `ea`.
pub open spec fn alu_regs(s: CpuModel, op: Operation, ea: u16) -> Regs {
    match spec_kind(op) {
        OpKind::Read => read_op(op, s.regs, s.mem.read(ea)),
        OpKind::ReadWrite => rmw_op(op, s.regs, s.mem.read(ea)),
        OpKind::Write => s.regs,
        OpKind::Implied => implied_op(op, s.regs),
    }
}

/// Memory after an operation on the operand at `ea`.
pub open spec fn alu_mem(s: CpuModel, op: Operation, ea: u16) -> MemView {
    match spec_kind(op) {
        OpKind::ReadWrite => s.mem.write(ea, rmw_value(op, s.regs, s.mem.read(ea))),
        OpKind::Write => s.mem.write(ea, write_value(op, s.regs)),
        _ => s.mem,
    }
}

/// Bus cycles of an operation on memory, given those of a read in the same mode.
pub open spec fn alu_cycles(op: Operation, read: int, write: int, rmw: int) -> int {
    match spec_kind(op) {
        OpKind::ReadWrite => rmw,
        OpKind::Write => write,
        _ => read,
    }
}

proof fn lemma_run_succ(s: CpuModel, n: nat)
    ensures
        run(s, n + 1) == step_model(run(s, n).0),
        run(s, 0) == (s, CpuAction::Continue),
{
}

/// Whether an instruction leaves the stack alone.
pub open spec fn stackless(i: Instr) -> bool {
    match i {
        Instr::Brk | Instr::Jsr | Instr::Rti | Instr::Rts | Instr::Pha | Instr::Php | Instr::Pla
        | Instr::Plp => false,
        _ => true,
    }
}

/// The `k`-th T-state of an instruction that is still in flight finds the
/// CPU running, the opcode latched and the cycle counter at `k + 1`.
proof fn lemma_in_flight(s: CpuModel, i: Instr, n: nat, k: nat)
    requires
        boundary(s),
        spec_decode(operand(s, 0)) == Some(i),
        takes(s, n),
        1 <= k < n,
    ensures
        run(s, k).0.state == CpuState::Running,
        run(s, k).0.cycle == k + 1,
        run(s, k).0.opcode == operand(s, 0),
    decreases k,
{
    lemma_run_succ(s, (k - 1) as nat);
    assert(run(s, k).1 == CpuAction::Continue);
    if k == 1 {
        lemma_step_fetch(s);
        lemma_pc_step(s.pc, 0);
        assert(s.pc == pc_plus(s, 0));
    } else {
        lemma_in_flight(s, i, n, (k - 1) as nat);
        let t = run(s, (k - 1) as nat).0;
        lemma_step_instr(t, i);
        lemma_continue_bound(t, i);
    }
}

/// Every T-state of an instruction that leaves the stack alone, up to the
/// one that finishes it, is defined: the CPU can run the whole instruction.
pub proof fn lemma_stackless_steps_defined(s: CpuModel, i: Instr, n: nat)
    requires
        boundary(s),
        spec_decode(operand(s, 0)) == Some(i),
        stackless(i),
        takes(s, n),
    ensures
        forall|k: nat| k < n ==> #[trigger] step_ok(run(s, k).0),
{
    lemma_run_succ(s, 0);
    assert forall|k: nat| k < n implies #[trigger] step_ok(run(s, k).0) by {
        if k >= 1 {
            lemma_in_flight(s, i, n, k);
        }
    }
}

proof fn lemma_zp_index(b: u8, i: u8)
    ensures
        (b as u16).wrapping_add(i as u16) & 0xFF == ((b + i) % 256) as u16,
{
    let x = (b as u16).wrapping_add(i as u16);
    assert(x == b + i);
    let bb = b as u16;
    let ii = i as u16;
    assert(((bb + ii) as u16) & 0xFF == ((bb + ii) as u16) % 256) by (bit_vector)
        requires
            bb < 256,
            ii < 256,
    ;
}

proof fn lemma_word(a: u16, l: u8, h: u8)
    ensures
        set_hi(set_lo(a, l), h) == l + 256 * h,
        (l as u16) | ((h as u16) << 8u16) == l + 256 * h,
{
    let ll = l as u16;
    let hh = h as u16;
    assert(((a & 0xFF00) | ll) & 0x00FF | (hh << 8u16) == (ll + 256 * hh) as u16) by (bit_vector)
        requires
            ll < 256,
            hh < 256,
    ;
    assert(ll | (hh << 8u16) == (ll + 256 * hh) as u16) by (bit_vector)
        requires
            ll < 256,
            hh < 256,
    ;
}

/// Splitting an indexed address into its page-local part and the carry.
proof fn lemma_index_carry(b: u8, i: u8, h: u8)
    ensures
        ({
            let a = (b as u16).wrapping_add(i as u16);
            &&& set_hi(a & 0xFF, h) == (b + i) % 256 + 256 * h
            &&& (a & 0x100 == 0) == (b + i < 256)
            &&& set_hi(a & 0xFF, h).wrapping_add(a & 0x100) == (b + 256 * h + i) % 65536
        }),
{
    let a = (b as u16).wrapping_add(i as u16);
    assert(a == b + i);
    let hh = h as u16;
    assert(((a & 0xFF) & 0x00FF) | (hh << 8u16) == (a % 256 + 256 * hh) as u16) by (bit_vector)
        requires
            a < 512,
            hh < 256,
    ;
    assert((a & 0x100 == 0) == (a < 256)) by (bit_vector)
        requires
            a < 512,
    ;
    assert(a & 0x100 == 0 || a & 0x100 == 256) by (bit_vector)
        requires
            a < 512,
    ;
}

proof fn lemma_pc_step(p: u16, k: int)
    requires
        0 <= k,
    ensures
        (((p + k) % 65536) as u16).wrapping_add(1) == ((p + k + 1) % 65536) as u16,
{
}

/// Zero page: an operation on the byte at $00LL, in three cycles for a read
/// or a store and five for a read-modify-write.
#[verifier::rlimit(100)]
pub proof fn lemma_zeropage(s: CpuModel, op: Operation)
    requires
        boundary(s),
        spec_decode(operand(s, 0)) == Some(Instr::Alu(Mode::ZeroPage, op)),
    ensures
        ({
            let ea = operand(s, 1) as u16;
            let n: nat = match spec_kind(op) {
                OpKind::ReadWrite => 5,
                OpKind::Write => 3,
                _ => 4,
            };
            &&& ends_at(s, n, alu_regs(s, op, ea), alu_mem(s, op, ea), pc_plus(s, 2))
            &&& cycles(s, n) == alu_cycles(op, 3, 3, 5)
        }),
{
    let ea = operand(s, 1) as u16;
    lemma_pc_step(s.pc, 0);
    lemma_pc_step(s.pc, 1);
    lemma_pc_step(s.pc, 2);
    crate::memory::lemma_write_wf(s.mem, ea, write_value(op, s.regs));
    crate::memory::lemma_write_wf(s.mem, ea, rmw_value(op, s.regs, s.mem.read(ea)));
    let i = Instr::Alu(Mode::ZeroPage, op);
    lemma_run_succ(s, 0);
    lemma_run_succ(s, 1);
    lemma_run_succ(s, 2);
    lemma_run_succ(s, 3);
    lemma_run_succ(s, 4);
    lemma_step_fetch(s);
    let s1 = run(s, 1).0;
    assert(s1 == s.fetch());
    lemma_step_instr(s1, i);
    let s2 = run(s, 2).0;
    assert(s2.addr == ea && s2.cycle == 3 && s2.pc == pc_plus(s, 2));
    lemma_step_instr(s2, i);
    let s3 = run(s, 3).0;
    if spec_kind(op) != OpKind::Write {
        lemma_step_instr(s3, i);
        let s4 = run(s, 4).0;
        if spec_kind(op) == OpKind::ReadWrite {
            lemma_step_instr(s4, i);
        }
    }
    assert(run(s, 1).1 == CpuAction::Continue);
    assert(run(s, 2).1 == CpuAction::Continue);
    if spec_kind(op) != OpKind::Write {
        assert(run(s, 3).1 == CpuAction::Continue);
        if spec_kind(op) == OpKind::ReadWrite {
            assert(run(s, 4).1 == CpuAction::Continue);
        }
    }
}

/// Zero page indexed: an operation on the byte at $00LL plus the index,
/// wrapping within the zero page, in four cycles for a read or a store and
/// six for a read-modify-write.
#[verifier::rlimit(100)]
pub proof fn lemma_zeropage_indexed(s: CpuModel, mode: Mode, op: Operation)
    requires
        boundary(s),
        mode == Mode::ZeroPageX || mode == Mode::ZeroPageY,
        spec_decode(operand(s, 0)) == Some(Instr::Alu(mode, op)),
    ensures
        ({
            let index = if mode == Mode::ZeroPageX {
                s.regs.x
            } else {
                s.regs.y
            };
            let ea = ((operand(s, 1) + index) % 256) as u16;
            let n: nat = match spec_kind(op) {
                OpKind::ReadWrite => 6,
                OpKind::Write => 4,
                _ => 5,
            };
            &&& ends_at(s, n, alu_regs(s, op, ea), alu_mem(s, op, ea), pc_plus(s, 2))
            &&& cycles(s, n) == alu_cycles(op, 4, 4, 6)
        }),
{
    let index = if mode == Mode::ZeroPageX {
        s.regs.x
    } else {
        s.regs.y
    };
    let ea = ((operand(s, 1) + index) % 256) as u16;
    lemma_zp_index(operand(s, 1), index);
    lemma_pc_step(s.pc, 0);
    lemma_pc_step(s.pc, 1);
    lemma_pc_step(s.pc, 2);
    crate::memory::lemma_write_wf(s.mem, ea, write_value(op, s.regs));
    crate::memory::lemma_write_wf(s.mem, ea, rmw_value(op, s.regs, s.mem.read(ea)));
    let i = Instr::Alu(mode, op);
    lemma_run_succ(s, 0);
    lemma_run_succ(s, 1);
    lemma_run_succ(s, 2);
    lemma_run_succ(s, 3);
    lemma_run_succ(s, 4);
    lemma_run_succ(s, 5);
    lemma_step_fetch(s);
    let s1 = run(s, 1).0;
    lemma_step_instr(s1, i);
    let s2 = run(s, 2).0;
    assert(s2.addr == operand(s, 1) as u16 && s2.cycle == 3 && s2.pc == pc_plus(s, 2));
    lemma_step_instr(s2, i);
    let s3 = run(s, 3).0;
    assert(s3.addr == ea && s3.cycle == 4);
    lemma_step_instr(s3, i);
    let s4 = run(s, 4).0;
    if spec_kind(op) != OpKind::Write {
        lemma_step_instr(s4, i);
        let s5 = run(s, 5).0;
        if spec_kind(op) == OpKind::ReadWrite {
            lemma_step_instr(s5, i);
        }
    }
    assert(run(s, 1).1 == CpuAction::Continue);
    assert(run(s, 2).1 == CpuAction::Continue);
    assert(run(s, 3).1 == CpuAction::Continue);
    if spec_kind(op) != OpKind::Write {
        assert(run(s, 4).1 == CpuAction::Continue);
        if spec_kind(op) == OpKind::ReadWrite {
            assert(run(s, 5).1 == CpuAction::Continue);
        }
    }
}

/// Absolute: an operation on the byte at $HHLL, in four cycles for a read or
/// a store and six for a read-modify-write.
#[verifier::rlimit(100)]
pub proof fn lemma_absolute(s: CpuModel, op: Operation)
    requires
        boundary(s),
        spec_decode(operand(s, 0)) == Some(Instr::Alu(Mode::Absolute, op)),
    ensures
        ({
            let ea = (operand(s, 1) + 256 * operand(s, 2)) as u16;
            let n: nat = match spec_kind(op) {
                OpKind::ReadWrite => 6,
                OpKind::Write => 4,
                _ => 5,
            };
            &&& ends_at(s, n, alu_regs(s, op, ea), alu_mem(s, op, ea), pc_plus(s, 3))
            &&& cycles(s, n) == alu_cycles(op, 4, 4, 6)
        }),
{
    let ea = (operand(s, 1) + 256 * operand(s, 2)) as u16;
    lemma_pc_step(s.pc, 0);
    lemma_pc_step(s.pc, 1);
    lemma_pc_step(s.pc, 2);
    lemma_pc_step(s.pc, 3);
    crate::memory::lemma_write_wf(s.mem, ea, write_value(op, s.regs));
    crate::memory::lemma_write_wf(s.mem, ea, rmw_value(op, s.regs, s.mem.read(ea)));
    let i = Instr::Alu(Mode::Absolute, op);
    lemma_run_succ(s, 0);
    lemma_run_succ(s, 1);
    lemma_run_succ(s, 2);
    lemma_run_succ(s, 3);
    lemma_run_succ(s, 4);
    lemma_run_succ(s, 5);
    lemma_step_fetch(s);
    let s1 = run(s, 1).0;
    lemma_step_instr(s1, i);
    let s2 = run(s, 2).0;
    assert(s2.addr == set_lo(s.addr, operand(s, 1)) && s2.cycle == 3 && s2.pc == pc_plus(s, 2));
    lemma_step_instr(s2, i);
    let s3 = run(s, 3).0;
    lemma_word(s.addr, operand(s, 1), operand(s, 2));
    assert(s3.addr == ea && s3.cycle == 4 && s3.pc == pc_plus(s, 3));
    lemma_step_instr(s3, i);
    let s4 = run(s, 4).0;
    if spec_kind(op) != OpKind::Write {
        lemma_step_instr(s4, i);
        let s5 = run(s, 5).0;
        if spec_kind(op) == OpKind::ReadWrite {
            lemma_step_instr(s5, i);
        }
    }
    assert(run(s, 1).1 == CpuAction::Continue);
    assert(run(s, 2).1 == CpuAction::Continue);
    assert(run(s, 3).1 == CpuAction::Continue);
    if spec_kind(op) != OpKind::Write {
        assert(run(s, 4).1 == CpuAction::Continue);
        if spec_kind(op) == OpKind::ReadWrite {
            assert(run(s, 5).1 == CpuAction::Continue);
        }
    }
}

/// Absolute indexed: an operation on the byte at $HHLL plus the index, with
/// carry; a read takes four cycles, five when it crosses a page, a store
/// five and a read-modify-write seven.
#[verifier::rlimit(100)]
pub proof fn lemma_absolute_indexed(s: CpuModel, mode: Mode, op: Operation)
    requires
        boundary(s),
        mode == Mode::AbsoluteX || mode == Mode::AbsoluteY,
        spec_decode(operand(s, 0)) == Some(Instr::Alu(mode, op)),
    ensures
        ({
            let index = if mode == Mode::AbsoluteX {
                s.regs.x
            } else {
                s.regs.y
            };
            let ea = ((operand(s, 1) + 256 * operand(s, 2) + index) % 65536) as u16;
            let crossed = operand(s, 1) + index >= 256;
            let n: nat = match spec_kind(op) {
                OpKind::ReadWrite => 7,
                OpKind::Write => 5,
                _ => if crossed {
                    6
                } else {
                    5
                },
            };
            &&& ends_at(s, n, alu_regs(s, op, ea), alu_mem(s, op, ea), pc_plus(s, 3))
            &&& cycles(s, n) == alu_cycles(
                op,
                if crossed {
                    5
                } else {
                    4
                },
                5,
                7,
            )
        }),
{
    let index = if mode == Mode::AbsoluteX {
        s.regs.x
    } else {
        s.regs.y
    };
    let ea = ((operand(s, 1) + 256 * operand(s, 2) + index) % 65536) as u16;
    let crossed = operand(s, 1) + index >= 256;
    lemma_index_carry(operand(s, 1), index, operand(s, 2));
    lemma_pc_step(s.pc, 0);
    lemma_pc_step(s.pc, 1);
    lemma_pc_step(s.pc, 2);
    lemma_pc_step(s.pc, 3);
    crate::memory::lemma_write_wf(s.mem, ea, write_value(op, s.regs));
    crate::memory::lemma_write_wf(s.mem, ea, rmw_value(op, s.regs, s.mem.read(ea)));
    let i = Instr::Alu(mode, op);
    lemma_run_succ(s, 0);
    lemma_run_succ(s, 1);
    lemma_run_succ(s, 2);
    lemma_run_succ(s, 3);
    lemma_run_succ(s, 4);
    lemma_run_succ(s, 5);
    lemma_run_succ(s, 6);
    lemma_step_fetch(s);
    let s1 = run(s, 1).0;
    lemma_step_instr(s1, i);
    let s2 = run(s, 2).0;
    assert(s2.addr == operand(s, 1) as u16 && s2.cycle == 3 && s2.pc == pc_plus(s, 2));
    lemma_step_instr(s2, i);
    let s3 = run(s, 3).0;
    assert(s3.cycle == 4 && s3.pc == pc_plus(s, 3));
    assert((s3.extra_addr == 0) == !crossed);
    assert(s3.addr.wrapping_add(s3.extra_addr) == ea);
    lemma_step_instr(s3, i);
    let s4 = run(s, 4).0;
    let fast = crate::model::is_read_or_implied(op) && !crossed;
    if fast {
        assert(s3.addr == ea);
        lemma_step_instr(s4, i);
        assert(run(s, 4).1 == CpuAction::Continue);
    } else {
        assert(s4.addr == ea && s4.cycle == 5);
        lemma_step_instr(s4, i);
        let s5 = run(s, 5).0;
        if spec_kind(op) != OpKind::Write {
            lemma_step_instr(s5, i);
            let s6 = run(s, 6).0;
            if spec_kind(op) == OpKind::ReadWrite {
                lemma_step_instr(s6, i);
                assert(run(s, 6).1 == CpuAction::Continue);
            }
            assert(run(s, 5).1 == CpuAction::Continue);
        }
        assert(run(s, 4).1 == CpuAction::Continue);
    }
    assert(run(s, 1).1 == CpuAction::Continue);
    assert(run(s, 2).1 == CpuAction::Continue);
    assert(run(s, 3).1 == CpuAction::Continue);
}

/// Indexed indirect, `(LL,X)`: an operation on the byte the pointer at
/// $00(LL+X) designates, both pointer bytes read within the zero page; six
/// cycles for a read or a store.
#[verifier::rlimit(100)]
pub proof fn lemma_indexed_indirect(s: CpuModel, op: Operation)
    requires
        boundary(s),
        spec_decode(operand(s, 0)) == Some(Instr::Alu(Mode::IndexedIndirect, op)),
    ensures
        ({
            let z = (operand(s, 1) + s.regs.x) % 256;
            let ea = (s.mem.read(z as u16) + 256 * s.mem.read(((z + 1) % 256) as u16)) as u16;
            let n: nat = match spec_kind(op) {
                OpKind::ReadWrite => 8,
                OpKind::Write => 6,
                _ => 7,
            };
            &&& ends_at(s, n, alu_regs(s, op, ea), alu_mem(s, op, ea), pc_plus(s, 2))
            &&& cycles(s, n) == alu_cycles(op, 6, 6, 8)
        }),
{
    let z = (operand(s, 1) + s.regs.x) % 256;
    let z2 = ((z + 1) % 256) as u16;
    let ea = (s.mem.read(z as u16) + 256 * s.mem.read(z2)) as u16;
    lemma_zp_index(operand(s, 1), s.regs.x);
    lemma_zp_index(z as u8, 1);
    lemma_word(s.addr, s.mem.read(z as u16), s.mem.read(z2));
    lemma_pc_step(s.pc, 0);
    lemma_pc_step(s.pc, 1);
    lemma_pc_step(s.pc, 2);
    crate::memory::lemma_write_wf(s.mem, ea, write_value(op, s.regs));
    crate::memory::lemma_write_wf(s.mem, ea, rmw_value(op, s.regs, s.mem.read(ea)));
    let i = Instr::Alu(Mode::IndexedIndirect, op);
    lemma_run_succ(s, 0);
    lemma_run_succ(s, 1);
    lemma_run_succ(s, 2);
    lemma_run_succ(s, 3);
    lemma_run_succ(s, 4);
    lemma_run_succ(s, 5);
    lemma_run_succ(s, 6);
    lemma_run_succ(s, 7);
    lemma_step_fetch(s);
    let s1 = run(s, 1).0;
    lemma_step_instr(s1, i);
    let s2 = run(s, 2).0;
    assert(s2.extra_addr == operand(s, 1) as u16 && s2.cycle == 3 && s2.pc == pc_plus(s, 2));
    lemma_step_instr(s2, i);
    let s3 = run(s, 3).0;
    assert(s3.extra_addr == z as u16 && s3.cycle == 4);
    lemma_step_instr(s3, i);
    let s4 = run(s, 4).0;
    assert(s4.extra_addr == z2 && s4.cycle == 5);
    lemma_step_instr(s4, i);
    let s5 = run(s, 5).0;
    assert(s5.addr == ea && s5.cycle == 6 && s5.pc == pc_plus(s, 2));
    lemma_step_instr(s5, i);
    let s6 = run(s, 6).0;
    if spec_kind(op) != OpKind::Write {
        lemma_step_instr(s6, i);
        let s7 = run(s, 7).0;
        if spec_kind(op) == OpKind::ReadWrite {
            lemma_step_instr(s7, i);
            assert(run(s, 7).1 == CpuAction::Continue);
        }
        assert(run(s, 6).1 == CpuAction::Continue);
    }
    assert(run(s, 1).1 == CpuAction::Continue);
    assert(run(s, 2).1 == CpuAction::Continue);
    assert(run(s, 3).1 == CpuAction::Continue);
    assert(run(s, 4).1 == CpuAction::Continue);
    assert(run(s, 5).1 == CpuAction::Continue);
}

/// Indirect indexed, `(LL),Y`: an operation on the byte the pointer at $00LL
/// designates plus Y, with carry; a read takes five cycles, six when it
/// crosses a page, a store six.
#[verifier::rlimit(100)]
pub proof fn lemma_indirect_indexed(s: CpuModel, op: Operation)
    requires
        boundary(s),
        spec_decode(operand(s, 0)) == Some(Instr::Alu(Mode::IndirectIndexed, op)),
    ensures
        ({
            let z = operand(s, 1);
            let lo = s.mem.read(z as u16);
            let hi = s.mem.read(((z + 1) % 256) as u16);
            let ea = ((lo + 256 * hi + s.regs.y) % 65536) as u16;
            let crossed = lo + s.regs.y >= 256;
            let n: nat = match spec_kind(op) {
                OpKind::ReadWrite => 8,
                OpKind::Write => 6,
                _ => if crossed {
                    7
                } else {
                    6
                },
            };
            &&& ends_at(s, n, alu_regs(s, op, ea), alu_mem(s, op, ea), pc_plus(s, 2))
            &&& cycles(s, n) == alu_cycles(
                op,
                if crossed {
                    6
                } else {
                    5
                },
                6,
                8,
            )
        }),
{
    let z = operand(s, 1);
    let lo = s.mem.read(z as u16);
    let hi = s.mem.read(((z + 1) % 256) as u16);
    let ea = ((lo + 256 * hi + s.regs.y) % 65536) as u16;
    let crossed = lo + s.regs.y >= 256;
    let a = (lo as u16).wrapping_add(s.regs.y as u16);
    lemma_zp_index(z, 1);
    lemma_zp_index(lo, s.regs.y);
    lemma_index_carry(lo, s.regs.y, hi);
    lemma_word(lo as u16, (a & 0xFF) as u8, hi);
    lemma_pc_step(s.pc, 0);
    lemma_pc_step(s.pc, 1);
    lemma_pc_step(s.pc, 2);
    crate::memory::lemma_write_wf(s.mem, ea, write_value(op, s.regs));
    crate::memory::lemma_write_wf(s.mem, ea, rmw_value(op, s.regs, s.mem.read(ea)));
    let i = Instr::Alu(Mode::IndirectIndexed, op);
    lemma_run_succ(s, 0);
    lemma_run_succ(s, 1);
    lemma_run_succ(s, 2);
    lemma_run_succ(s, 3);
    lemma_run_succ(s, 4);
    lemma_run_succ(s, 5);
    lemma_run_succ(s, 6);
    lemma_run_succ(s, 7);
    lemma_step_fetch(s);
    let s1 = run(s, 1).0;
    lemma_step_instr(s1, i);
    let s2 = run(s, 2).0;
    assert(s2.extra_addr == z as u16 && s2.cycle == 3 && s2.pc == pc_plus(s, 2));
    lemma_step_instr(s2, i);
    let s3 = run(s, 3).0;
    assert(s3.addr == lo as u16 && s3.cycle == 4);
    lemma_step_instr(s3, i);
    let s4 = run(s, 4).0;
    assert(s4.cycle == 5);
    assert(s4.addr == (lo + s.regs.y) % 256 + 256 * hi);
    assert((s4.extra_addr == 0) == !crossed);
    assert(s4.addr.wrapping_add(s4.extra_addr) == ea);
    lemma_step_instr(s4, i);
    let s5 = run(s, 5).0;
    let fast = crate::model::is_read_or_implied(op) && !crossed;
    if fast {
        assert(s4.addr == ea);
        lemma_step_instr(s5, i);
        assert(run(s, 5).1 == CpuAction::Continue);
    } else {
        assert(s5.addr == ea && s5.cycle == 6);
        lemma_step_instr(s5, i);
        let s6 = run(s, 6).0;
        if spec_kind(op) != OpKind::Write {
            lemma_step_instr(s6, i);
            let s7 = run(s, 7).0;
            if spec_kind(op) == OpKind::ReadWrite {
                lemma_step_instr(s7, i);
                assert(run(s, 7).1 == CpuAction::Continue);
            }
            assert(run(s, 6).1 == CpuAction::Continue);
        }
        assert(run(s, 5).1 == CpuAction::Continue);
    }
    assert(run(s, 1).1 == CpuAction::Continue);
    assert(run(s, 2).1 == CpuAction::Continue);
    assert(run(s, 3).1 == CpuAction::Continue);
    assert(run(s, 4).1 == CpuAction::Continue);
}

/// Immediate: an operation on the byte after the opcode, in two cycles.
pub proof fn lemma_immediate(s: CpuModel, op: Operation)
    requires
        boundary(s),
        spec_decode(operand(s, 0)) == Some(Instr::Alu(Mode::Immediate, op)),
        spec_kind(op) == OpKind::Read || spec_kind(op) == OpKind::Implied,
    ensures
        ends_at(s, 3, alu_regs(s, op, pc_plus(s, 1)), s.mem, pc_plus(s, 2)),
        cycles(s, 3) == 2,
{
    lemma_pc_step(s.pc, 0);
    lemma_pc_step(s.pc, 1);
    lemma_pc_step(s.pc, 2);
    let i = Instr::Alu(Mode::Immediate, op);
    lemma_run_succ(s, 0);
    lemma_run_succ(s, 1);
    lemma_run_succ(s, 2);
    lemma_step_fetch(s);
    let s1 = run(s, 1).0;
    lemma_step_instr(s1, i);
    let s2 = run(s, 2).0;
    assert(s2.value == operand(s, 1) && s2.cycle == 3 && s2.pc == pc_plus(s, 2));
    lemma_step_instr(s2, i);
    assert(run(s, 1).1 == CpuAction::Continue);
    assert(run(s, 2).1 == CpuAction::Continue);
}

/// Accumulator: a read-modify-write operation on AC, in two cycles.
pub proof fn lemma_accumulator(s: CpuModel, op: Operation)
    requires
        boundary(s),
        spec_decode(operand(s, 0)) == Some(Instr::Alu(Mode::Accumulator, op)),
        spec_kind(op) == OpKind::ReadWrite,
    ensures
        ends_at(
            s,
            3,
            Regs { ac: rmw_value(op, s.regs, s.regs.ac), ..rmw_op(op, s.regs, s.regs.ac) },
            s.mem,
            pc_plus(s, 1),
        ),
        cycles(s, 3) == 2,
{
    lemma_pc_step(s.pc, 0);
    lemma_pc_step(s.pc, 1);
    let i = Instr::Alu(Mode::Accumulator, op);
    lemma_run_succ(s, 0);
    lemma_run_succ(s, 1);
    lemma_run_succ(s, 2);
    lemma_step_fetch(s);
    let s1 = run(s, 1).0;
    lemma_step_instr(s1, i);
    let s2 = run(s, 2).0;
    lemma_step_instr(s2, i);
    assert(run(s, 1).1 == CpuAction::Continue);
    assert(run(s, 2).1 == CpuAction::Continue);
}

/// Implied: an operation on registers and flags alone, in two cycles.
pub proof fn lemma_implied(s: CpuModel, op: Operation)
    requires
        boundary(s),
        spec_decode(operand(s, 0)) == Some(Instr::Alu(Mode::Implied, op)),
        spec_kind(op) == OpKind::Implied,
    ensures
        ends_at(s, 3, implied_op(op, s.regs), s.mem, pc_plus(s, 1)),
        cycles(s, 3) == 2,
{
    lemma_pc_step(s.pc, 0);
    lemma_pc_step(s.pc, 1);
    let i = Instr::Alu(Mode::Implied, op);
    lemma_run_succ(s, 0);
    lemma_run_succ(s, 1);
    lemma_run_succ(s, 2);
    lemma_step_fetch(s);
    let s1 = run(s, 1).0;
    lemma_step_instr(s1, i);
    let s2 = run(s, 2).0;
    lemma_step_instr(s2, i);
    assert(run(s, 1).1 == CpuAction::Continue);
    assert(run(s, 2).1 == CpuAction::Continue);
}

proof fn lemma_same_page(x: u16, t: u16)
    ensures
        (set_lo(x, lo(t)) == t) == (hi(x) == hi(t)),
{
    assert((((x & 0xFF00) | ((t & 0xFF) as u8) as u16) == t) == ((x >> 8) as u8 == (t >> 8) as u8))
        by (bit_vector);
}

proof fn lemma_high_of_byte(l: u8, h: u8)
    ensures
        set_hi(l as u16, h) == l + 256 * h,
{
    let ll = l as u16;
    let hh = h as u16;
    assert((ll & 0x00FF) | (hh << 8u16) == (ll + 256 * hh) as u16) by (bit_vector)
        requires
            ll < 256,
            hh < 256,
    ;
}

/// Conditional branches: two cycles when not taken, three when taken within
/// the page of the next instruction, four when taken to another page.
pub proof fn lemma_branch(s: CpuModel, c: Cond)
    requires
        boundary(s),
        spec_decode(operand(s, 0)) == Some(Instr::Branch(c)),
    ensures
        ({
            let next = pc_plus(s, 2);
            let target = next.wrapping_add(sign_extend(operand(s, 1)));
            if !branch_taken(c, s.regs.p) {
                ends_at(s, 2, s.regs, s.mem, next) && cycles(s, 2) == 2
            } else if hi(target) == hi(next) {
                ends_at(s, 3, s.regs, s.mem, target) && cycles(s, 3) == 3
            } else {
                ends_at(s, 4, s.regs, s.mem, target) && cycles(s, 4) == 4
            }
        }),
{
    let next = pc_plus(s, 2);
    let target = next.wrapping_add(sign_extend(operand(s, 1)));
    lemma_same_page(next, target);
    lemma_pc_step(s.pc, 0);
    lemma_pc_step(s.pc, 1);
    let i = Instr::Branch(c);
    lemma_run_succ(s, 0);
    lemma_run_succ(s, 1);
    lemma_run_succ(s, 2);
    lemma_run_succ(s, 3);
    lemma_step_fetch(s);
    let s1 = run(s, 1).0;
    lemma_step_instr(s1, i);
    let s2 = run(s, 2).0;
    assert(run(s, 1).1 == CpuAction::Continue);
    if branch_taken(c, s.regs.p) {
        assert(s2.pc == next && s2.addr == sign_extend(operand(s, 1)) && s2.cycle == 3);
        lemma_step_instr(s2, i);
        let s3 = run(s, 3).0;
        assert(run(s, 2).1 == CpuAction::Continue);
        if hi(target) != hi(next) {
            lemma_step_instr(s3, i);
            assert(run(s, 3).1 == CpuAction::Continue);
        }
    }
}

/// JMP absolute: three cycles, to $HHLL.
pub proof fn lemma_jmp_abs(s: CpuModel)
    requires
        boundary(s),
        spec_decode(operand(s, 0)) == Some(Instr::JmpAbs),
    ensures
        ends_at(s, 3, s.regs, s.mem, (operand(s, 1) + 256 * operand(s, 2)) as u16),
        cycles(s, 3) == 3,
{
    lemma_pc_step(s.pc, 0);
    lemma_pc_step(s.pc, 1);
    lemma_word(s.addr, operand(s, 1), operand(s, 2));
    let i = Instr::JmpAbs;
    lemma_run_succ(s, 0);
    lemma_run_succ(s, 1);
    lemma_run_succ(s, 2);
    lemma_step_fetch(s);
    let s1 = run(s, 1).0;
    lemma_step_instr(s1, i);
    let s2 = run(s, 2).0;
    lemma_step_instr(s2, i);
    assert(run(s, 1).1 == CpuAction::Continue);
    assert(run(s, 2).1 == CpuAction::Continue);
}

/// JMP indirect: five cycles, to the address stored at the pointer $HHLL,
/// whose high byte comes from the pointer's successor within its own page.
pub proof fn lemma_jmp_indirect(s: CpuModel)
    requires
        boundary(s),
        spec_decode(operand(s, 0)) == Some(Instr::JmpInd),
    ensures
        ({
            let ptr = (operand(s, 1) + 256 * operand(s, 2)) as u16;
            let target = (s.mem.read(ptr) + 256 * s.mem.read(jmp_ind_high_addr(ptr))) as u16;
            ends_at(s, 5, s.regs, s.mem, target) && cycles(s, 5) == 5
        }),
{
    let ptr = (operand(s, 1) + 256 * operand(s, 2)) as u16;
    lemma_pc_step(s.pc, 0);
    lemma_pc_step(s.pc, 1);
    lemma_pc_step(s.pc, 2);
    lemma_high_of_byte(operand(s, 1), operand(s, 2));
    lemma_high_of_byte(s.mem.read(ptr), s.mem.read(jmp_ind_high_addr(ptr)));
    let i = Instr::JmpInd;
    lemma_run_succ(s, 0);
    lemma_run_succ(s, 1);
    lemma_run_succ(s, 2);
    lemma_run_succ(s, 3);
    lemma_run_succ(s, 4);
    lemma_step_fetch(s);
    let s1 = run(s, 1).0;
    lemma_step_instr(s1, i);
    let s2 = run(s, 2).0;
    assert(s2.addr == operand(s, 1) as u16);
    lemma_step_instr(s2, i);
    let s3 = run(s, 3).0;
    assert(s3.addr == ptr);
    lemma_step_instr(s3, i);
    let s4 = run(s, 4).0;
    lemma_step_instr(s4, i);
    assert(run(s, 1).1 == CpuAction::Continue);
    assert(run(s, 2).1 == CpuAction::Continue);
    assert(run(s, 3).1 == CpuAction::Continue);
    assert(run(s, 4).1 == CpuAction::Continue);
}

/// The JMP indirect page-wrap: a pointer at the last byte of a page takes the
/// high byte of the target from the first byte of that same page.
pub proof fn lemma_jmp_indirect_page_wrap(ptr: u16)
    ensures
        ptr % 256 == 255 ==> jmp_ind_high_addr(ptr) == ptr - 255,
        ptr % 256 != 255 ==> jmp_ind_high_addr(ptr) == ptr + 1,
{
    let q = ptr.wrapping_add(1);
    assert(ptr == 0xFFFF ==> q == 0);
    assert(ptr != 0xFFFF ==> q == ptr + 1);
    assert(ptr % 256 == 255 ==> (ptr & 0xFF00) | (q & 0xFF) == ptr - 255) by (bit_vector)
        requires
            ptr == 0xFFFF ==> q == 0,
            ptr != 0xFFFF ==> q == ptr + 1,
    ;
    assert(ptr % 256 != 255 ==> (ptr & 0xFF00) | (q & 0xFF) == ptr + 1) by (bit_vector)
        requires
            ptr == 0xFFFF ==> q == 0,
            ptr != 0xFFFF ==> q == ptr + 1,
    ;
}

/// The stack cell the stack pointer `sp` designates.
pub open spec fn stack_cell(sp: int) -> u16 {
    (0x100 + sp) as u16
}

/// JSR: six cycles; pushes the address of its last byte, high byte first,
/// and jumps to $HHLL (the high byte read after the pushes). Every T-state
/// of it is defined when the stack has room for both bytes.
#[verifier::rlimit(100)]
pub proof fn lemma_jsr(s: CpuModel)
    requires
        boundary(s),
        spec_decode(operand(s, 0)) == Some(Instr::Jsr),
        s.regs.sp >= 2,
    ensures
        ({
            let ret = pc_plus(s, 2);
            let m1 = s.mem.write(stack_cell(s.regs.sp as int), hi(ret));
            let m2 = m1.write(stack_cell(s.regs.sp - 1), lo(ret));
            let target = (operand(s, 1) + 256 * m2.read(ret)) as u16;
            ends_at(s, 6, Regs { sp: (s.regs.sp - 2) as u8, ..s.regs }, m2, target) && cycles(s, 6)
                == 6
        }),
        forall|k: nat| k < 6 ==> #[trigger] step_ok(run(s, k).0),
{
    let ret = pc_plus(s, 2);
    let m1 = s.mem.write(stack_cell(s.regs.sp as int), hi(ret));
    let m2 = m1.write(stack_cell(s.regs.sp - 1), lo(ret));
    crate::memory::lemma_write_wf(s.mem, stack_cell(s.regs.sp as int), hi(ret));
    crate::memory::lemma_write_wf(m1, stack_cell(s.regs.sp - 1), lo(ret));
    lemma_pc_step(s.pc, 0);
    lemma_pc_step(s.pc, 1);
    lemma_high_of_byte(operand(s, 1), m2.read(ret));
    let i = Instr::Jsr;
    lemma_run_succ(s, 0);
    lemma_run_succ(s, 1);
    lemma_run_succ(s, 2);
    lemma_run_succ(s, 3);
    lemma_run_succ(s, 4);
    lemma_run_succ(s, 5);
    lemma_step_fetch(s);
    let s1 = run(s, 1).0;
    lemma_step_instr(s1, i);
    let s2 = run(s, 2).0;
    assert(s2.addr == operand(s, 1) as u16 && s2.pc == ret);
    lemma_step_instr(s2, i);
    let s3 = run(s, 3).0;
    lemma_step_instr(s3, i);
    let s4 = run(s, 4).0;
    assert(s4.mem == m1);
    lemma_step_instr(s4, i);
    let s5 = run(s, 5).0;
    assert(s5.mem == m2);
    lemma_step_instr(s5, i);
    assert(run(s, 1).1 == CpuAction::Continue);
    assert(run(s, 2).1 == CpuAction::Continue);
    assert(run(s, 3).1 == CpuAction::Continue);
    assert(run(s, 4).1 == CpuAction::Continue);
    assert(run(s, 5).1 == CpuAction::Continue);
    assert(takes(s, 6));
    assert forall|k: nat| k < 6 implies #[trigger] step_ok(run(s, k).0) by {
        if k >= 1 {
            lemma_in_flight(s, Instr::Jsr, 6, k);
        }
    }
}

/// RTS: six cycles; pulls the low then the high byte of an address and
/// resumes one past it. Every T-state of it is defined when both bytes are
/// on the stack.
#[verifier::rlimit(100)]
pub proof fn lemma_rts(s: CpuModel)
    requires
        boundary(s),
        spec_decode(operand(s, 0)) == Some(Instr::Rts),
        s.regs.sp <= 0xFD,
    ensures
        ({
            let l = s.mem.read(stack_cell(s.regs.sp + 1));
            let h = s.mem.read(stack_cell(s.regs.sp + 2));
            let target = ((l + 256 * h + 1) % 65536) as u16;
            ends_at(s, 6, Regs { sp: (s.regs.sp + 2) as u8, ..s.regs }, s.mem, target) && cycles(
                s,
                6,
            ) == 6
        }),
        forall|k: nat| k < 6 ==> #[trigger] step_ok(run(s, k).0),
{
    let l = s.mem.read(stack_cell(s.regs.sp + 1));
    let h = s.mem.read(stack_cell(s.regs.sp + 2));
    lemma_pc_step(s.pc, 0);
    let p1 = s.pc.wrapping_add(1);
    lemma_word(p1, l, h);
    lemma_pc_step((l + 256 * h) as u16, 0);
    let i = Instr::Rts;
    lemma_run_succ(s, 0);
    lemma_run_succ(s, 1);
    lemma_run_succ(s, 2);
    lemma_run_succ(s, 3);
    lemma_run_succ(s, 4);
    lemma_run_succ(s, 5);
    lemma_step_fetch(s);
    let s1 = run(s, 1).0;
    lemma_step_instr(s1, i);
    let s2 = run(s, 2).0;
    lemma_step_instr(s2, i);
    let s3 = run(s, 3).0;
    assert(s3.regs.sp == s.regs.sp + 1);
    lemma_step_instr(s3, i);
    let s4 = run(s, 4).0;
    assert(s4.pc == set_lo(p1, l) && s4.regs.sp == s.regs.sp + 2);
    lemma_step_instr(s4, i);
    let s5 = run(s, 5).0;
    assert(s5.pc == l + 256 * h);
    lemma_step_instr(s5, i);
    assert(run(s, 1).1 == CpuAction::Continue);
    assert(run(s, 2).1 == CpuAction::Continue);
    assert(run(s, 3).1 == CpuAction::Continue);
    assert(run(s, 4).1 == CpuAction::Continue);
    assert(run(s, 5).1 == CpuAction::Continue);
    assert(takes(s, 6));
    assert forall|k: nat| k < 6 implies #[trigger] step_ok(run(s, k).0) by {
        if k >= 1 {
            lemma_in_flight(s, Instr::Rts, 6, k);
        }
    }
}

/// BRK: seven cycles; pushes the address two past the opcode, high byte
/// first, then the status with Break and Unused set, and jumps through the
/// IRQ vector. Every T-state of it is defined when the stack has room for
/// all three bytes.
#[verifier::rlimit(100)]
pub proof fn lemma_brk(s: CpuModel)
    requires
        boundary(s),
        spec_decode(operand(s, 0)) == Some(Instr::Brk),
        s.regs.sp >= 3,
    ensures
        ({
            let ret = pc_plus(s, 2);
            let m1 = s.mem.write(stack_cell(s.regs.sp as int), hi(ret));
            let m2 = m1.write(stack_cell(s.regs.sp - 1), lo(ret));
            let m3 = m2.write(stack_cell(s.regs.sp - 2), pushed_status(s.regs.p));
            let target = (m3.read(0xFFFE) + 256 * m3.read(0xFFFF)) as u16;
            ends_at(s, 7, Regs { sp: (s.regs.sp - 3) as u8, ..s.regs }, m3, target) && cycles(s, 7)
                == 7
        }),
        forall|k: nat| k < 7 ==> #[trigger] step_ok(run(s, k).0),
{
    let ret = pc_plus(s, 2);
    let m1 = s.mem.write(stack_cell(s.regs.sp as int), hi(ret));
    let m2 = m1.write(stack_cell(s.regs.sp - 1), lo(ret));
    let m3 = m2.write(stack_cell(s.regs.sp - 2), pushed_status(s.regs.p));
    crate::memory::lemma_write_wf(s.mem, stack_cell(s.regs.sp as int), hi(ret));
    crate::memory::lemma_write_wf(m1, stack_cell(s.regs.sp - 1), lo(ret));
    crate::memory::lemma_write_wf(m2, stack_cell(s.regs.sp - 2), pushed_status(s.regs.p));
    lemma_pc_step(s.pc, 0);
    lemma_pc_step(s.pc, 1);
    lemma_word(ret, m3.read(0xFFFE), m3.read(0xFFFF));
    let i = Instr::Brk;
    lemma_run_succ(s, 0);
    lemma_run_succ(s, 1);
    lemma_run_succ(s, 2);
    lemma_run_succ(s, 3);
    lemma_run_succ(s, 4);
    lemma_run_succ(s, 5);
    lemma_run_succ(s, 6);
    lemma_step_fetch(s);
    let s1 = run(s, 1).0;
    lemma_step_instr(s1, i);
    let s2 = run(s, 2).0;
    assert(s2.pc == ret);
    lemma_step_instr(s2, i);
    let s3 = run(s, 3).0;
    assert(s3.mem == m1);
    lemma_step_instr(s3, i);
    let s4 = run(s, 4).0;
    assert(s4.mem == m2);
    lemma_step_instr(s4, i);
    let s5 = run(s, 5).0;
    assert(s5.mem == m3 && s5.pc == ret);
    lemma_step_instr(s5, i);
    let s6 = run(s, 6).0;
    lemma_step_instr(s6, i);
    assert(run(s, 1).1 == CpuAction::Continue);
    assert(run(s, 2).1 == CpuAction::Continue);
    assert(run(s, 3).1 == CpuAction::Continue);
    assert(run(s, 4).1 == CpuAction::Continue);
    assert(run(s, 5).1 == CpuAction::Continue);
    assert(run(s, 6).1 == CpuAction::Continue);
    assert(takes(s, 7));
    assert forall|k: nat| k < 7 implies #[trigger] step_ok(run(s, k).0) by {
        if k >= 1 {
            lemma_in_flight(s, Instr::Brk, 7, k);
        }
    }
}

/// RTI: six cycles; pulls the status (dropping Break and Unused), then the
/// low and high bytes of the address to resume at. Every T-state of it is
/// defined when all three bytes are on the stack.
#[verifier::rlimit(100)]
pub proof fn lemma_rti(s: CpuModel)
    requires
        boundary(s),
        spec_decode(operand(s, 0)) == Some(Instr::Rti),
        s.regs.sp <= 0xFC,
    ensures
        ({
            let p = pulled_status(s.mem.read(stack_cell(s.regs.sp + 1)));
            let l = s.mem.read(stack_cell(s.regs.sp + 2));
            let h = s.mem.read(stack_cell(s.regs.sp + 3));
            ends_at(
                s,
                6,
                Regs { sp: (s.regs.sp + 3) as u8, p, ..s.regs },
                s.mem,
                (l + 256 * h) as u16,
            ) && cycles(s, 6) == 6
        }),
        forall|k: nat| k < 6 ==> #[trigger] step_ok(run(s, k).0),
{
    let l = s.mem.read(stack_cell(s.regs.sp + 2));
    let h = s.mem.read(stack_cell(s.regs.sp + 3));
    lemma_pc_step(s.pc, 0);
    let p1 = s.pc.wrapping_add(1);
    lemma_word(p1, l, h);
    let i = Instr::Rti;
    lemma_run_succ(s, 0);
    lemma_run_succ(s, 1);
    lemma_run_succ(s, 2);
    lemma_run_succ(s, 3);
    lemma_run_succ(s, 4);
    lemma_run_succ(s, 5);
    lemma_step_fetch(s);
    let s1 = run(s, 1).0;
    lemma_step_instr(s1, i);
    let s2 = run(s, 2).0;
    lemma_step_instr(s2, i);
    let s3 = run(s, 3).0;
    lemma_step_instr(s3, i);
    let s4 = run(s, 4).0;
    lemma_step_instr(s4, i);
    let s5 = run(s, 5).0;
    assert(s5.pc == set_lo(p1, l));
    lemma_step_instr(s5, i);
    assert(run(s, 1).1 == CpuAction::Continue);
    assert(run(s, 2).1 == CpuAction::Continue);
    assert(run(s, 3).1 == CpuAction::Continue);
    assert(run(s, 4).1 == CpuAction::Continue);
    assert(run(s, 5).1 == CpuAction::Continue);
    assert(takes(s, 6));
    assert forall|k: nat| k < 6 implies #[trigger] step_ok(run(s, k).0) by {
        if k >= 1 {
            lemma_in_flight(s, Instr::Rti, 6, k);
        }
    }
}

/// PHA (`status == false`) and PHP (`status == true`): three cycles, each
/// defined when the stack has room.
pub proof fn lemma_push(s: CpuModel, status: bool)
    requires
        boundary(s),
        spec_decode(operand(s, 0)) == Some(
            if status {
                Instr::Php
            } else {
                Instr::Pha
            },
        ),
        s.regs.sp >= 1,
    ensures
        ({
            let v = if status {
                pushed_status(s.regs.p)
            } else {
                s.regs.ac
            };
            ends_at(
                s,
                3,
                Regs { sp: (s.regs.sp - 1) as u8, ..s.regs },
                s.mem.write(stack_cell(s.regs.sp as int), v),
                pc_plus(s, 1),
            ) && cycles(s, 3) == 3
        }),
        forall|k: nat| k < 3 ==> #[trigger] step_ok(run(s, k).0),
{
    let v = if status {
        pushed_status(s.regs.p)
    } else {
        s.regs.ac
    };
    crate::memory::lemma_write_wf(s.mem, stack_cell(s.regs.sp as int), v);
    lemma_pc_step(s.pc, 0);
    let i = if status {
        Instr::Php
    } else {
        Instr::Pha
    };
    lemma_run_succ(s, 0);
    lemma_run_succ(s, 1);
    lemma_run_succ(s, 2);
    lemma_step_fetch(s);
    let s1 = run(s, 1).0;
    lemma_step_instr(s1, i);
    let s2 = run(s, 2).0;
    lemma_step_instr(s2, i);
    assert(run(s, 1).1 == CpuAction::Continue);
    assert(run(s, 2).1 == CpuAction::Continue);
    assert(takes(s, 3));
    assert forall|k: nat| k < 3 implies #[trigger] step_ok(run(s, k).0) by {
        if k >= 1 {
            lemma_in_flight(s, i, 3, k);
        }
    }
}

/// PLA (`status == false`, setting N and Z) and PLP (`status == true`,
/// dropping Break and Unused): four cycles, each defined when a byte is on
/// the stack.
pub proof fn lemma_pull(s: CpuModel, status: bool)
    requires
        boundary(s),
        spec_decode(operand(s, 0)) == Some(
            if status {
                Instr::Plp
            } else {
                Instr::Pla
            },
        ),
        s.regs.sp <= 0xFE,
    ensures
        ({
            let v = s.mem.read(stack_cell(s.regs.sp + 1));
            let sp = (s.regs.sp + 1) as u8;
            let regs = if status {
                Regs { sp, p: pulled_status(v), ..s.regs }
            } else {
                Regs { sp, ac: v, p: crate::ops::with_nz(s.regs.p, v), ..s.regs }
            };
            ends_at(s, 4, regs, s.mem, pc_plus(s, 1)) && cycles(s, 4) == 4
        }),
        forall|k: nat| k < 4 ==> #[trigger] step_ok(run(s, k).0),
{
    lemma_pc_step(s.pc, 0);
    let i = if status {
        Instr::Plp
    } else {
        Instr::Pla
    };
    lemma_run_succ(s, 0);
    lemma_run_succ(s, 1);
    lemma_run_succ(s, 2);
    lemma_run_succ(s, 3);
    lemma_step_fetch(s);
    let s1 = run(s, 1).0;
    lemma_step_instr(s1, i);
    let s2 = run(s, 2).0;
    lemma_step_instr(s2, i);
    let s3 = run(s, 3).0;
    lemma_step_instr(s3, i);
    assert(run(s, 1).1 == CpuAction::Continue);
    assert(run(s, 2).1 == CpuAction::Continue);
    assert(run(s, 3).1 == CpuAction::Continue);
    assert(takes(s, 4));
    assert forall|k: nat| k < 4 implies #[trigger] step_ok(run(s, k).0) by {
        if k >= 1 {
            lemma_in_flight(s, i, 4, k);
        }
    }
}

/// The reset sequence: eight T-states after `reset`, the CPU runs from the
/// address in the reset vector with the stack pointer at $FD.
pub proof fn lemma_reset_sequence(s: CpuModel)
    requires
        s.wf(),
        s.state == CpuState::Resetting,
        s.cycle == 1,
    ensures
        takes(s, 8),
        run(s, 8).1 == CpuAction::Complete,
        run(s, 8).0.state == CpuState::Running,
        run(s, 8).0.cycle == 1,
        run(s, 8).0.regs.sp == 0xFD,
        run(s, 8).0.pc == s.mem.read(0xFFFC) + 256 * s.mem.read(0xFFFD),
        run(s, 8).0.mem == s.mem,
{
    lemma_run_succ(s, 0);
    lemma_run_succ(s, 1);
    lemma_run_succ(s, 2);
    lemma_run_succ(s, 3);
    lemma_run_succ(s, 4);
    lemma_run_succ(s, 5);
    lemma_run_succ(s, 6);
    lemma_run_succ(s, 7);
    lemma_step_reset(s);
    let s1 = run(s, 1).0;
    lemma_step_reset(s1);
    let s2 = run(s, 2).0;
    lemma_step_reset(s2);
    let s3 = run(s, 3).0;
    lemma_step_reset(s3);
    let s4 = run(s, 4).0;
    lemma_step_reset(s4);
    let s5 = run(s, 5).0;
    lemma_step_reset(s5);
    let s6 = run(s, 6).0;
    lemma_step_reset(s6);
    let s7 = run(s, 7).0;
    assert(s7.cycle == 8 && s7.regs.sp == 0xFD);
    lemma_step_reset(s7);
    lemma_word(s.pc, s.mem.read(0xFFFC), s.mem.read(0xFFFD));
    assert(run(s, 1).1 == CpuAction::Continue);
    assert(run(s, 2).1 == CpuAction::Continue);
    assert(run(s, 3).1 == CpuAction::Continue);
    assert(run(s, 4).1 == CpuAction::Continue);
    assert(run(s, 5).1 == CpuAction::Continue);
    assert(run(s, 6).1 == CpuAction::Continue);
    assert(run(s, 7).1 == CpuAction::Continue);
}

/// The stack room an instruction needs: bytes below the pointer for what it
/// pushes, bytes above it for what it pulls.
pub open spec fn stack_room(i: Instr, sp: u8) -> bool {
    match i {
        Instr::Brk => sp >= 3,
        Instr::Jsr => sp >= 2,
        Instr::Pha | Instr::Php => sp >= 1,
        Instr::Rti => sp <= 0xFC,
        Instr::Rts => sp <= 0xFD,
        Instr::Pla | Instr::Plp => sp <= 0xFE,
        _ => true,
    }
}

proof fn lemma_status_round_trip(p: u8)
    ensures
        pulled_status(pushed_status(p)) == p & !(SR_BREAK | SR_UNUSED),
{
    assert(((p | 0x10u8 | 0x20u8) & !(0x10u8 | 0x20u8)) == p & !(0x10u8 | 0x20u8)) by (bit_vector);
}

proof fn lemma_split_word(x: u16)
    ensures
        (lo(x) + 256 * hi(x)) as u16 == x,
{
    let l = (x & 0xFF) as u8;
    let h = (x >> 8) as u8;
    assert((l as u16) + 256 * (h as u16) == x) by (bit_vector)
        requires
            l == (x & 0xFF) as u8,
            h == (x >> 8) as u8,
    ;
}

/// Whether the stack page is plain RAM, shadowed by no bank.
pub open spec fn stack_in_ram(m: MemView) -> bool {
    m.map[1].0 == 0
}

/// BRK then RTI: with the stack in RAM and the three bytes BRK pushed still
/// there when RTI runs at the stack depth BRK left, RTI resumes two bytes
/// past the BRK opcode, restores the stack pointer, and restores the status
/// with Break and Unused clear.
#[verifier::rlimit(100)]
pub proof fn lemma_brk_rti_round_trip(s: CpuModel, t: CpuModel)
    requires
        boundary(s),
        spec_decode(operand(s, 0)) == Some(Instr::Brk),
        s.regs.sp >= 3,
        stack_in_ram(s.mem),
        boundary(t),
        spec_decode(operand(t, 0)) == Some(Instr::Rti),
        t.regs.sp == s.regs.sp - 3,
        forall|j: int|
            0 <= j < 3 ==> t.mem.read(#[trigger] stack_cell(s.regs.sp - j)) == run(s, 7).0.mem.read(
                stack_cell(s.regs.sp - j),
            ),
    ensures
        run(t, 6).1 == CpuAction::Complete,
        run(t, 6).0.pc == pc_plus(s, 2),
        run(t, 6).0.regs.sp == s.regs.sp,
        run(t, 6).0.regs.p == s.regs.p & !(SR_BREAK | SR_UNUSED),
{
    lemma_brk(s);
    lemma_rti(t);
    let ret = pc_plus(s, 2);
    let sp = s.regs.sp as int;
    assert(t.mem.read(stack_cell(sp)) == run(s, 7).0.mem.read(stack_cell(sp - 0)));
    assert(t.mem.read(stack_cell(sp - 1)) == run(s, 7).0.mem.read(stack_cell(sp - 1)));
    assert(t.mem.read(stack_cell(sp - 2)) == run(s, 7).0.mem.read(stack_cell(sp - 2)));
    assert(t.mem.read(stack_cell(t.regs.sp + 1)) == pushed_status(s.regs.p));
    assert(t.mem.read(stack_cell(t.regs.sp + 2)) == lo(ret));
    assert(t.mem.read(stack_cell(t.regs.sp + 3)) == hi(ret));
    lemma_status_round_trip(s.regs.p);
    lemma_split_word(ret);
}

/// JSR then RTS: with the stack in RAM and the two bytes JSR pushed still
/// there when RTS runs at the stack depth JSR left, RTS resumes just past
/// the three JSR bytes, restores the stack pointer, and writes no memory.
#[verifier::rlimit(100)]
pub proof fn lemma_jsr_rts_round_trip(s: CpuModel, t: CpuModel)
    requires
        boundary(s),
        spec_decode(operand(s, 0)) == Some(Instr::Jsr),
        s.regs.sp >= 2,
        stack_in_ram(s.mem),
        boundary(t),
        spec_decode(operand(t, 0)) == Some(Instr::Rts),
        t.regs.sp == s.regs.sp - 2,
        forall|j: int|
            0 <= j < 2 ==> t.mem.read(#[trigger] stack_cell(s.regs.sp - j)) == run(s, 6).0.mem.read(
                stack_cell(s.regs.sp - j),
            ),
    ensures
        run(t, 6).1 == CpuAction::Complete,
        run(t, 6).0.pc == pc_plus(s, 3),
        run(t, 6).0.regs == (Regs { sp: s.regs.sp, ..t.regs }),
        run(t, 6).0.mem == t.mem,
{
    lemma_jsr(s);
    lemma_rts(t);
    let ret = pc_plus(s, 2);
    let sp = s.regs.sp as int;
    assert(t.mem.read(stack_cell(sp)) == run(s, 6).0.mem.read(stack_cell(sp - 0)));
    assert(t.mem.read(stack_cell(sp - 1)) == run(s, 6).0.mem.read(stack_cell(sp - 1)));
    assert(t.mem.read(stack_cell(t.regs.sp + 1)) == lo(ret));
    assert(t.mem.read(stack_cell(t.regs.sp + 2)) == hi(ret));
    lemma_split_word(ret);
}

/// PHP then PLP: with the stack in RAM and the byte PHP pushed still there
/// when PLP runs at the stack depth PHP left, PLP restores the stack pointer
/// and the status with Break and Unused clear.
pub proof fn lemma_php_plp_round_trip(s: CpuModel, t: CpuModel)
    requires
        boundary(s),
        spec_decode(operand(s, 0)) == Some(Instr::Php),
        s.regs.sp >= 1,
        stack_in_ram(s.mem),
        boundary(t),
        spec_decode(operand(t, 0)) == Some(Instr::Plp),
        t.regs.sp == s.regs.sp - 1,
        t.mem.read(stack_cell(s.regs.sp as int)) == run(s, 3).0.mem.read(stack_cell(s.regs.sp as int)),
    ensures
        run(s, 3).0.mem.read(stack_cell(s.regs.sp as int)) == pushed_status(s.regs.p),
        run(t, 4).0.regs.p == s.regs.p & !(SR_BREAK | SR_UNUSED),
        run(t, 4).0.regs.sp == s.regs.sp,
{
    lemma_push(s, true);
    lemma_pull(t, true);
    assert(t.mem.read(stack_cell(t.regs.sp + 1)) == pushed_status(s.regs.p));
    lemma_status_round_trip(s.regs.p);
}

/// The index register an indexed mode adds.
pub open spec fn index_of(s: CpuModel, mode: Mode) -> u8 {
    if mode == Mode::ZeroPageX || mode == Mode::AbsoluteX {
        s.regs.x
    } else {
        s.regs.y
    }
}

/// The low and high pointer bytes of `(LL),Y`.
pub open spec fn ind_y_base(s: CpuModel) -> (u8, u8) {
    (s.mem.read(operand(s, 1) as u16), s.mem.read(((operand(s, 1) + 1) % 256) as u16))
}

/// The effective address of an operation in a memory mode.
pub open spec fn effective_address(s: CpuModel, mode: Mode) -> u16 {
    match mode {
        Mode::Immediate => pc_plus(s, 1),
        Mode::ZeroPage => operand(s, 1) as u16,
        Mode::ZeroPageX | Mode::ZeroPageY => ((operand(s, 1) + index_of(s, mode)) % 256) as u16,
        Mode::Absolute => (operand(s, 1) + 256 * operand(s, 2)) as u16,
        Mode::AbsoluteX | Mode::AbsoluteY => ((operand(s, 1) + 256 * operand(s, 2) + index_of(
            s,
            mode,
        )) % 65536) as u16,
        Mode::IndexedIndirect => {
            let z = (operand(s, 1) + s.regs.x) % 256;
            (s.mem.read(z as u16) + 256 * s.mem.read(((z + 1) % 256) as u16)) as u16
        },
        Mode::IndirectIndexed => {
            let (l, h) = ind_y_base(s);
            ((l + 256 * h + s.regs.y) % 65536) as u16
        },
        _ => 0,
    }
}

/// Whether an indexed read crosses a page.
pub open spec fn crosses_page(s: CpuModel, mode: Mode) -> bool {
    match mode {
        Mode::AbsoluteX | Mode::AbsoluteY => operand(s, 1) + index_of(s, mode) >= 256,
        Mode::IndirectIndexed => ind_y_base(s).0 + s.regs.y >= 256,
        _ => false,
    }
}

/// The length in bytes of an instruction in an addressing mode.
pub open spec fn length(mode: Mode) -> int {
    match mode {
        Mode::Accumulator | Mode::Implied => 1,
        Mode::Absolute | Mode::AbsoluteX | Mode::AbsoluteY => 3,
        _ => 2,
    }
}

/// Bus cycles of an operation in an addressing mode.
pub open spec fn alu_bus_cycles(s: CpuModel, mode: Mode, op: Operation) -> int {
    let extra = if crosses_page(s, mode) {
        1int
    } else {
        0
    };
    match mode {
        Mode::Immediate | Mode::Accumulator | Mode::Implied => 2,
        Mode::ZeroPage => alu_cycles(op, 3, 3, 5),
        Mode::ZeroPageX | Mode::ZeroPageY | Mode::Absolute => alu_cycles(op, 4, 4, 6),
        Mode::AbsoluteX | Mode::AbsoluteY => alu_cycles(op, 4 + extra, 5, 7),
        Mode::IndexedIndirect => alu_cycles(op, 6, 6, 8),
        Mode::IndirectIndexed => alu_cycles(op, 5 + extra, 6, 8),
    }
}

/// The branch target: the next instruction's address plus the signed offset.
pub open spec fn branch_target(s: CpuModel) -> u16 {
    pc_plus(s, 2).wrapping_add(sign_extend(operand(s, 1)))
}

/// The bus cycles of one whole instruction begun at `s`, as the chip counts them.
pub open spec fn reference_cycles(s: CpuModel) -> int {
    match spec_decode(operand(s, 0)) {
        Some(Instr::Alu(mode, op)) => alu_bus_cycles(s, mode, op),
        Some(Instr::Branch(c)) => if !branch_taken(c, s.regs.p) {
            2
        } else if hi(branch_target(s)) == hi(pc_plus(s, 2)) {
            3
        } else {
            4
        },
        Some(Instr::JmpAbs) => 3,
        Some(Instr::JmpInd) => 5,
        Some(Instr::Brk) => 7,
        Some(Instr::Jsr) | Some(Instr::Rts) | Some(Instr::Rti) => 6,
        Some(Instr::Pha) | Some(Instr::Php) => 3,
        Some(Instr::Pla) | Some(Instr::Plp) => 4,
        None => 0,
    }
}

/// The T-states `step` takes for it: one more than its bus cycles when its
/// last T-state also fetches the next opcode (reads and register operations).
pub open spec fn reference_tstates(s: CpuModel) -> nat {
    match spec_decode(operand(s, 0)) {
        Some(Instr::Alu(mode, op)) => if spec_kind(op) == OpKind::Read || spec_kind(op)
            == OpKind::Implied || mode == Mode::Accumulator {
            (reference_cycles(s) + 1) as nat
        } else {
            reference_cycles(s) as nat
        },
        _ => reference_cycles(s) as nat,
    }
}

/// What one whole instruction begun at `s` leaves: registers, memory and the
/// address of the next instruction.
pub open spec fn reference(s: CpuModel) -> (Regs, MemView, u16) {
    let sp = s.regs.sp as int;
    match spec_decode(operand(s, 0)) {
        Some(Instr::Alu(mode, op)) => {
            let ea = effective_address(s, mode);
            let regs = match mode {
                Mode::Accumulator => Regs {
                    ac: rmw_value(op, s.regs, s.regs.ac),
                    ..rmw_op(op, s.regs, s.regs.ac)
                },
                Mode::Implied => implied_op(op, s.regs),
                _ => alu_regs(s, op, ea),
            };
            let mem = match mode {
                Mode::Accumulator | Mode::Implied | Mode::Immediate => s.mem,
                _ => alu_mem(s, op, ea),
            };
            (regs, mem, pc_plus(s, length(mode)))
        },
        Some(Instr::Branch(c)) => (
            s.regs,
            s.mem,
            if branch_taken(c, s.regs.p) {
                branch_target(s)
            } else {
                pc_plus(s, 2)
            },
        ),
        Some(Instr::JmpAbs) => (s.regs, s.mem, (operand(s, 1) + 256 * operand(s, 2)) as u16),
        Some(Instr::JmpInd) => {
            let ptr = (operand(s, 1) + 256 * operand(s, 2)) as u16;
            (s.regs, s.mem, (s.mem.read(ptr) + 256 * s.mem.read(jmp_ind_high_addr(ptr))) as u16)
        },
        Some(Instr::Jsr) => {
            let ret = pc_plus(s, 2);
            let m2 = s.mem.write(stack_cell(sp), hi(ret)).write(stack_cell(sp - 1), lo(ret));
            (
                Regs { sp: (sp - 2) as u8, ..s.regs },
                m2,
                (operand(s, 1) + 256 * m2.read(ret)) as u16,
            )
        },
        Some(Instr::Rts) => {
            let l = s.mem.read(stack_cell(sp + 1));
            let h = s.mem.read(stack_cell(sp + 2));
            (Regs { sp: (sp + 2) as u8, ..s.regs }, s.mem, ((l + 256 * h + 1) % 65536) as u16)
        },
        Some(Instr::Brk) => {
            let ret = pc_plus(s, 2);
            let m3 = s.mem.write(stack_cell(sp), hi(ret)).write(stack_cell(sp - 1), lo(ret)).write(
                stack_cell(sp - 2),
                pushed_status(s.regs.p),
            );
            (
                Regs { sp: (sp - 3) as u8, ..s.regs },
                m3,
                (m3.read(0xFFFE) + 256 * m3.read(0xFFFF)) as u16,
            )
        },
        Some(Instr::Rti) => {
            let p = pulled_status(s.mem.read(stack_cell(sp + 1)));
            let l = s.mem.read(stack_cell(sp + 2));
            let h = s.mem.read(stack_cell(sp + 3));
            (Regs { sp: (sp + 3) as u8, p, ..s.regs }, s.mem, (l + 256 * h) as u16)
        },
        Some(Instr::Pha) => (
            Regs { sp: (sp - 1) as u8, ..s.regs },
            s.mem.write(stack_cell(sp), s.regs.ac),
            pc_plus(s, 1),
        ),
        Some(Instr::Php) => (
            Regs { sp: (sp - 1) as u8, ..s.regs },
            s.mem.write(stack_cell(sp), pushed_status(s.regs.p)),
            pc_plus(s, 1),
        ),
        Some(Instr::Pla) => {
            let v = s.mem.read(stack_cell(sp + 1));
            (
                Regs { sp: (sp + 1) as u8, ac: v, p: crate::ops::with_nz(s.regs.p, v), ..s.regs },
                s.mem,
                pc_plus(s, 1),
            )
        },
        Some(Instr::Plp) => {
            let v = s.mem.read(stack_cell(sp + 1));
            (Regs { sp: (sp + 1) as u8, p: pulled_status(v), ..s.regs }, s.mem, pc_plus(s, 1))
        },
        None => (s.regs, s.mem, s.pc),
    }
}

/// Every implemented instruction, begun between instructions with the stack
/// room it needs, does what `reference` says, takes `reference_tstates`
/// T-states of `step` (each of them defined), and counts `reference_cycles`
/// bus cycles: the chip's cycle counts with their page-crossing penalties.
#[verifier::rlimit(100)]
pub proof fn lemma_instruction_matches_reference(s: CpuModel)
    requires
        boundary(s),
        spec_decode(operand(s, 0)) is Some,
        stack_room(spec_decode(operand(s, 0))->0, s.regs.sp),
    ensures
        ({
            let (regs, mem, next) = reference(s);
            let n = reference_tstates(s);
            &&& ends_at(s, n, regs, mem, next)
            &&& cycles(s, n) == reference_cycles(s)
            &&& forall|k: nat| k < n ==> #[trigger] step_ok(run(s, k).0)
        }),
{
    let i = spec_decode(operand(s, 0))->0;
    lemma_decode_fits(operand(s, 0));
    match i {
        Instr::Alu(mode, op) => match mode {
            Mode::Immediate => lemma_immediate(s, op),
            Mode::Accumulator => lemma_accumulator(s, op),
            Mode::Implied => lemma_implied(s, op),
            Mode::ZeroPage => lemma_zeropage(s, op),
            Mode::ZeroPageX | Mode::ZeroPageY => lemma_zeropage_indexed(s, mode, op),
            Mode::Absolute => lemma_absolute(s, op),
            Mode::AbsoluteX | Mode::AbsoluteY => lemma_absolute_indexed(s, mode, op),
            Mode::IndexedIndirect => lemma_indexed_indirect(s, op),
            Mode::IndirectIndexed => lemma_indirect_indexed(s, op),
        },
        Instr::Branch(c) => lemma_branch(s, c),
        Instr::JmpAbs => lemma_jmp_abs(s),
        Instr::JmpInd => lemma_jmp_indirect(s),
        Instr::Jsr => lemma_jsr(s),
        Instr::Rts => lemma_rts(s),
        Instr::Brk => lemma_brk(s),
        Instr::Rti => lemma_rti(s),
        Instr::Pha => lemma_push(s, false),
        Instr::Php => lemma_push(s, true),
        Instr::Pla => lemma_pull(s, false),
        Instr::Plp => lemma_pull(s, true),
    }
    let n = reference_tstates(s);
    if stackless(i) {
        lemma_stackless_steps_defined(s, i, n);
    }
}

} // verus!
