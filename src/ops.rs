//! The register file of the 6502 and the semantics of its operations.

use vstd::prelude::*;

verus! {

pub const SR_NEGATIVE: u8 = 0x80;
pub const SR_OVERFLOW: u8 = 0x40;
pub const SR_UNUSED: u8 = 0x20;
pub const SR_BREAK: u8 = 0x10;
pub const SR_BCD: u8 = 0x08;
pub const SR_INTERRUPT_MASK: u8 = 0x04;
pub const SR_ZERO: u8 = 0x02;
pub const SR_CARRY: u8 = 0x01;

/// The programmer-visible 8-bit registers.
#[derive(Clone, Copy, Debug)]
pub struct Regs {
    pub ac: u8,
    pub x: u8,
    pub y: u8,
    pub sp: u8,
    pub p: u8,
}

/// The operations of the instruction set, apart from control flow and the stack.
#[derive(Clone, Copy, Debug, PartialEq, Eq, Structural)]
pub enum Operation {
    Ora,
    And,
    Eor,
    Adc,
    Sbc,
    Cmp,
    Cpx,
    Cpy,
    Bit,
    Lda,
    Ldx,
    Ldy,
    Asl,
    Lsr,
    Rol,
    Ror,
    Inc,
    Dec,
    Sta,
    Stx,
    Sty,
    Nop,
    Clc,
    Sec,
    Cli,
    Sei,
    Clv,
    Cld,
    Sed,
    Inx,
    Iny,
    Dex,
    Dey,
    Tax,
    Tay,
    Txa,
    Tya,
    Tsx,
    Txs,
}

/// How an operation uses its memory operand.
#[derive(Clone, Copy, Debug, PartialEq, Eq, Structural)]
pub enum OpKind {
    /// Consumes the operand.
    Read,
    /// Reads the operand, transforms it and writes it back.
    ReadWrite,
    /// Produces a value to store.
    Write,
    /// Uses no operand.
    Implied,
}

pub open spec fn spec_kind(op: Operation) -> OpKind {
    match op {
        Operation::Ora | Operation::And | Operation::Eor | Operation::Adc | Operation::Sbc
        | Operation::Cmp | Operation::Cpx | Operation::Cpy | Operation::Bit | Operation::Lda
        | Operation::Ldx | Operation::Ldy => OpKind::Read,
        Operation::Asl | Operation::Lsr | Operation::Rol | Operation::Ror | Operation::Inc
        | Operation::Dec => OpKind::ReadWrite,
        Operation::Sta | Operation::Stx | Operation::Sty => OpKind::Write,
        _ => OpKind::Implied,
    }
}

/// The kind of an operation.
pub fn kind(op: Operation) -> (r: OpKind)
    ensures
        r == spec_kind(op),
{
    match op {
        Operation::Ora | Operation::And | Operation::Eor | Operation::Adc | Operation::Sbc
        | Operation::Cmp | Operation::Cpx | Operation::Cpy | Operation::Bit | Operation::Lda
        | Operation::Ldx | Operation::Ldy => OpKind::Read,
        Operation::Asl | Operation::Lsr | Operation::Rol | Operation::Ror | Operation::Inc
        | Operation::Dec => OpKind::ReadWrite,
        Operation::Sta | Operation::Stx | Operation::Sty => OpKind::Write,
        _ => OpKind::Implied,
    }
}

/// `p` with the bits of `mask` set when `on`, cleared otherwise.
pub open spec fn with_flag(p: u8, mask: u8, on: bool) -> u8 {
    if on {
        p | mask
    } else {
        p & !mask
    }
}

/// `p` with Zero and Negative set from `v`.
pub open spec fn with_nz(p: u8, v: u8) -> u8 {
    with_flag(with_flag(p, SR_ZERO, v == 0), SR_NEGATIVE, v >= 0x80)
}

/// Whether a flag of `p` is set.
pub open spec fn flag(p: u8, mask: u8) -> bool {
    p & mask != 0
}

/// The carry flag as a number.
pub open spec fn carry_in(p: u8) -> int {
    if flag(p, SR_CARRY) {
        1
    } else {
        0
    }
}

pub fn set_flag(p: u8, mask: u8, on: bool) -> (r: u8)
    ensures
        r == with_flag(p, mask, on),
{
    if on {
        p | mask
    } else {
        p & !mask
    }
}

pub fn set_nz(p: u8, v: u8) -> (r: u8)
    ensures
        r == with_nz(p, v),
{
    set_flag(set_flag(p, SR_ZERO, v == 0), SR_NEGATIVE, v >= 0x80)
}

/// One decimal digit step: a sum past nine is pushed past the next ten by six.
pub open spec fn bcd_digit(a: int, b: int, c: int) -> int {
    if a + b + c > 9 {
        a + b + c + 6
    } else {
        a + b + c
    }
}

/// The same step on bytes, wrapping as byte arithmetic does.
pub open spec fn bcd_digit8(a: u8, b: u8) -> u8 {
    let r = a.wrapping_add(b);
    if r > 9 {
        r.wrapping_add(6)
    } else {
        r
    }
}

/// Binary ADC: the sum of accumulator, operand and carry.
pub open spec fn adc_binary(r: Regs, v: u8) -> Regs {
    let sum = r.ac + v + carry_in(r.p);
    let res = (sum % 256) as u8;
    let overflow = (r.ac ^ res) & (v ^ res) & 0x80 != 0;
    Regs {
        ac: res,
        p: with_nz(with_flag(with_flag(r.p, SR_OVERFLOW, overflow), SR_CARRY, sum >= 256), res),
        ..r
    }
}

/// Decimal ADC: digit-wise addition; only the accumulator and carry change.
pub open spec fn adc_decimal(r: Regs, v: u8) -> Regs {
    let d1 = bcd_digit(r.ac as int % 16, v as int % 16, carry_in(r.p));
    let d2 = bcd_digit(r.ac as int / 16, v as int / 16, d1 / 16);
    Regs {
        ac: (d1 % 16 + (d2 % 16) * 16) as u8,
        p: with_flag(r.p, SR_CARRY, (d2 / 16) % 2 == 1),
        ..r
    }
}

/// Binary SBC: accumulator minus operand minus borrow.
pub open spec fn sbc_binary(r: Regs, v: u8) -> Regs {
    let diff = r.ac - v - (1 - carry_in(r.p));
    let res = ((diff + 256) % 256) as u8;
    let overflow = (r.ac ^ res) & ((255 - v) as u8 ^ res) & 0x80 != 0;
    Regs {
        ac: res,
        p: with_nz(with_flag(with_flag(r.p, SR_OVERFLOW, overflow), SR_CARRY, diff >= 0), res),
        ..r
    }
}

/// Decimal SBC, digit by digit: each operand digit enters as its complement
/// to ten, with byte arithmetic wrapping.
pub open spec fn sbc_decimal(r: Regs, v: u8) -> Regs {
    let borrow: u8 = if flag(r.p, SR_CARRY) {
        0
    } else {
        1
    };
    let d1 = bcd_digit8(r.ac % 16, 10u8.wrapping_sub((v % 16 + borrow) as u8));
    let d2 = bcd_digit8(r.ac / 16, 10u8.wrapping_sub((v / 16).wrapping_add(1u8.wrapping_sub(d1 / 16))));
    Regs {
        ac: (d1 % 16).wrapping_add(((d2 % 16) * 16) as u8),
        p: with_flag(r.p, SR_CARRY, (d2 / 16) % 2 == 1),
        ..r
    }
}

/// A comparison of `reg` with `v`: carry when no borrow, N and Z from the difference.
pub open spec fn compare(r: Regs, reg: u8, v: u8) -> Regs {
    Regs { p: with_nz(with_flag(r.p, SR_CARRY, reg >= v), ((reg - v + 256) % 256) as u8), ..r }
}

/// The registers after a read operation on operand `v`.
pub open spec fn read_op(op: Operation, r: Regs, v: u8) -> Regs {
    match op {
        Operation::Ora => Regs { ac: r.ac | v, p: with_nz(r.p, r.ac | v), ..r },
        Operation::And => Regs { ac: r.ac & v, p: with_nz(r.p, r.ac & v), ..r },
        Operation::Eor => Regs { ac: r.ac ^ v, p: with_nz(r.p, r.ac ^ v), ..r },
        Operation::Adc => if flag(r.p, SR_BCD) {
            adc_decimal(r, v)
        } else {
            adc_binary(r, v)
        },
        Operation::Sbc => if flag(r.p, SR_BCD) {
            sbc_decimal(r, v)
        } else {
            sbc_binary(r, v)
        },
        Operation::Cmp => compare(r, r.ac, v),
        Operation::Cpx => compare(r, r.x, v),
        Operation::Cpy => compare(r, r.y, v),
        Operation::Bit => Regs {
            p: with_flag(
                with_flag(with_flag(r.p, SR_ZERO, r.ac & v == 0), SR_NEGATIVE, v >= 0x80),
                SR_OVERFLOW,
                v & 0x40 != 0,
            ),
            ..r
        },
        Operation::Lda => Regs { ac: v, p: with_nz(r.p, v), ..r },
        Operation::Ldx => Regs { x: v, p: with_nz(r.p, v), ..r },
        Operation::Ldy => Regs { y: v, p: with_nz(r.p, v), ..r },
        _ => r,
    }
}

/// The value a read-modify-write operation makes of `v`.
pub open spec fn rmw_value(op: Operation, r: Regs, v: u8) -> u8 {
    match op {
        Operation::Asl => ((v * 2) % 256) as u8,
        Operation::Lsr => v / 2,
        Operation::Rol => ((v * 2) % 256 + carry_in(r.p)) as u8,
        Operation::Ror => (v / 2 + 128 * carry_in(r.p)) as u8,
        Operation::Inc => ((v + 1) % 256) as u8,
        Operation::Dec => ((v + 255) % 256) as u8,
        _ => v,
    }
}

/// The registers after a read-modify-write operation on `v`.
pub open spec fn rmw_op(op: Operation, r: Regs, v: u8) -> Regs {
    let res = rmw_value(op, r, v);
    match op {
        Operation::Asl | Operation::Rol => Regs {
            p: with_nz(with_flag(r.p, SR_CARRY, v >= 0x80), res),
            ..r
        },
        Operation::Lsr | Operation::Ror => Regs {
            p: with_nz(with_flag(r.p, SR_CARRY, v % 2 == 1), res),
            ..r
        },
        Operation::Inc | Operation::Dec => Regs { p: with_nz(r.p, res), ..r },
        _ => r,
    }
}

/// The value a store operation writes.
pub open spec fn write_value(op: Operation, r: Regs) -> u8 {
    match op {
        Operation::Stx => r.x,
        Operation::Sty => r.y,
        _ => r.ac,
    }
}

/// The registers after an operation without operand.
pub open spec fn implied_op(op: Operation, r: Regs) -> Regs {
    match op {
        Operation::Clc => Regs { p: with_flag(r.p, SR_CARRY, false), ..r },
        Operation::Sec => Regs { p: with_flag(r.p, SR_CARRY, true), ..r },
        Operation::Cli => Regs { p: with_flag(r.p, SR_INTERRUPT_MASK, false), ..r },
        Operation::Sei => Regs { p: with_flag(r.p, SR_INTERRUPT_MASK, true), ..r },
        Operation::Clv => Regs { p: with_flag(r.p, SR_OVERFLOW, false), ..r },
        Operation::Cld => Regs { p: with_flag(r.p, SR_BCD, false), ..r },
        Operation::Sed => Regs { p: with_flag(r.p, SR_BCD, true), ..r },
        Operation::Inx => {
            let x = ((r.x + 1) % 256) as u8;
            Regs { x, p: with_nz(r.p, x), ..r }
        },
        Operation::Iny => {
            let y = ((r.y + 1) % 256) as u8;
            Regs { y, p: with_nz(r.p, y), ..r }
        },
        Operation::Dex => {
            let x = ((r.x + 255) % 256) as u8;
            Regs { x, p: with_nz(r.p, x), ..r }
        },
        Operation::Dey => {
            let y = ((r.y + 255) % 256) as u8;
            Regs { y, p: with_nz(r.p, y), ..r }
        },
        Operation::Tax => Regs { x: r.ac, p: with_nz(r.p, r.ac), ..r },
        Operation::Tay => Regs { y: r.ac, p: with_nz(r.p, r.ac), ..r },
        Operation::Txa => Regs { ac: r.x, p: with_nz(r.p, r.x), ..r },
        Operation::Tya => Regs { ac: r.y, p: with_nz(r.p, r.y), ..r },
        Operation::Tsx => Regs { x: r.sp, p: with_nz(r.p, r.sp), ..r },
        Operation::Txs => Regs { sp: r.x, ..r },
        _ => r,
    }
}

fn bcd_add_digits(a: u8, b: u8, c: u8) -> (r: u8)
    requires
        a + b + c <= 249,
    ensures
        r == bcd_digit(a as int, b as int, c as int),
{
    let r = a + b + c;
    if r > 9 {
        r + 6
    } else {
        r
    }
}

fn bcd_add_digits_wrapping(a: u8, b: u8) -> (r: u8)
    ensures
        r == bcd_digit8(a, b),
{
    let r = a.wrapping_add(b);
    if r > 9 {
        r.wrapping_add(6)
    } else {
        r
    }
}

/// ADC: binary or decimal by the BCD flag.
pub fn adc(r: Regs, v: u8) -> (out: Regs)
    ensures
        out == read_op(Operation::Adc, r, v),
{
    let c: u8 = if r.p & SR_CARRY != 0 {
        1
    } else {
        0
    };
    if r.p & SR_BCD == 0 {
        let sum: u16 = r.ac as u16 + v as u16 + c as u16;
        let res: u8 = (sum % 256) as u8;
        let overflow = (r.ac ^ res) & (v ^ res) & 0x80 != 0;
        let p = set_nz(set_flag(set_flag(r.p, SR_OVERFLOW, overflow), SR_CARRY, sum >= 256), res);
        Regs { ac: res, p, ..r }
    } else {
        let d1 = bcd_add_digits(r.ac % 16, v % 16, c);
        let d2 = bcd_add_digits(r.ac / 16, v / 16, d1 / 16);
        let ac: u8 = d1 % 16 + (d2 % 16) * 16;
        Regs { ac, p: set_flag(r.p, SR_CARRY, (d2 / 16) % 2 == 1), ..r }
    }
}

fn sbc_bin(r: Regs, v: u8) -> (out: Regs)
    requires
        !flag(r.p, SR_BCD),
    ensures
        out == read_op(Operation::Sbc, r, v),
{
    let borrow: u8 = if r.p & SR_CARRY != 0 {
        0
    } else {
        1
    };
    let no_borrow = r.ac as u16 >= v as u16 + borrow as u16;
    let res: u8 = if no_borrow {
        r.ac - v - borrow
    } else {
        (r.ac as u16 + 256 - v as u16 - borrow as u16) as u8
    };
    let overflow = (r.ac ^ res) & ((255 - v) ^ res) & 0x80 != 0;
    let p = set_nz(set_flag(set_flag(r.p, SR_OVERFLOW, overflow), SR_CARRY, no_borrow), res);
    Regs { ac: res, p, ..r }
}

fn sbc_dec(r: Regs, v: u8) -> (out: Regs)
    requires
        flag(r.p, SR_BCD),
    ensures
        out == read_op(Operation::Sbc, r, v),
{
    let borrow: u8 = if r.p & SR_CARRY != 0 {
        0
    } else {
        1
    };
    let d1 = bcd_add_digits_wrapping(r.ac % 16, 10u8.wrapping_sub(v % 16 + borrow));
    let d2 = bcd_add_digits_wrapping(
        r.ac / 16,
        10u8.wrapping_sub((v / 16).wrapping_add(1u8.wrapping_sub(d1 / 16))),
    );
    let ac: u8 = (d1 % 16).wrapping_add((d2 % 16) * 16);
    Regs { ac, p: set_flag(r.p, SR_CARRY, (d2 / 16) % 2 == 1), ..r }
}

/// SBC: binary or decimal by the BCD flag.
pub fn sbc(r: Regs, v: u8) -> (out: Regs)
    ensures
        out == read_op(Operation::Sbc, r, v),
{
    if r.p & SR_BCD == 0 {
        sbc_bin(r, v)
    } else {
        sbc_dec(r, v)
    }
}

/// Applies a read operation to operand `v`.
pub fn exec_read_op(op: Operation, r: Regs, v: u8) -> (out: Regs)
    ensures
        out == read_op(op, r, v),
{
    match op {
        Operation::Ora => Regs { ac: r.ac | v, p: set_nz(r.p, r.ac | v), ..r },
        Operation::And => Regs { ac: r.ac & v, p: set_nz(r.p, r.ac & v), ..r },
        Operation::Eor => Regs { ac: r.ac ^ v, p: set_nz(r.p, r.ac ^ v), ..r },
        Operation::Adc => adc(r, v),
        Operation::Sbc => sbc(r, v),
        Operation::Cmp => exec_compare(r, r.ac, v),
        Operation::Cpx => exec_compare(r, r.x, v),
        Operation::Cpy => exec_compare(r, r.y, v),
        Operation::Bit => Regs {
            p: set_flag(
                set_flag(set_flag(r.p, SR_ZERO, r.ac & v == 0), SR_NEGATIVE, v >= 0x80),
                SR_OVERFLOW,
                v & 0x40 != 0,
            ),
            ..r
        },
        Operation::Lda => Regs { ac: v, p: set_nz(r.p, v), ..r },
        Operation::Ldx => Regs { x: v, p: set_nz(r.p, v), ..r },
        Operation::Ldy => Regs { y: v, p: set_nz(r.p, v), ..r },
        _ => r,
    }
}

fn exec_compare(r: Regs, reg: u8, v: u8) -> (out: Regs)
    ensures
        out == compare(r, reg, v),
{
    Regs { p: set_nz(set_flag(r.p, SR_CARRY, reg >= v), reg.wrapping_sub(v)), ..r }
}

/// Applies a read-modify-write operation to `v`: the new registers and the
/// value to write back.
pub fn exec_rmw_op(op: Operation, r: Regs, v: u8) -> (out: (Regs, u8))
    ensures
        out.0 == rmw_op(op, r, v),
        out.1 == rmw_value(op, r, v),
{
    let c: u8 = if r.p & SR_CARRY != 0 {
        1
    } else {
        0
    };
    match op {
        Operation::Asl => {
            let res: u8 = ((v as u16 * 2) % 256) as u8;
            (Regs { p: set_nz(set_flag(r.p, SR_CARRY, v >= 0x80), res), ..r }, res)
        },
        Operation::Rol => {
            let res: u8 = ((v as u16 * 2) % 256 + c as u16) as u8;
            (Regs { p: set_nz(set_flag(r.p, SR_CARRY, v >= 0x80), res), ..r }, res)
        },
        Operation::Lsr => {
            let res: u8 = v / 2;
            (Regs { p: set_nz(set_flag(r.p, SR_CARRY, v % 2 == 1), res), ..r }, res)
        },
        Operation::Ror => {
            let res: u8 = v / 2 + 128 * c;
            (Regs { p: set_nz(set_flag(r.p, SR_CARRY, v % 2 == 1), res), ..r }, res)
        },
        Operation::Inc => {
            let res: u8 = v.wrapping_add(1);
            (Regs { p: set_nz(r.p, res), ..r }, res)
        },
        Operation::Dec => {
            let res: u8 = v.wrapping_sub(1);
            (Regs { p: set_nz(r.p, res), ..r }, res)
        },
        _ => (r, v),
    }
}

/// The value a store operation writes.
pub fn exec_write_op(op: Operation, r: Regs) -> (out: u8)
    ensures
        out == write_value(op, r),
{
    match op {
        Operation::Stx => r.x,
        Operation::Sty => r.y,
        _ => r.ac,
    }
}

/// Applies an operation without operand.
pub fn exec_implied_op(op: Operation, r: Regs) -> (out: Regs)
    ensures
        out == implied_op(op, r),
{
    match op {
        Operation::Clc => Regs { p: set_flag(r.p, SR_CARRY, false), ..r },
        Operation::Sec => Regs { p: set_flag(r.p, SR_CARRY, true), ..r },
        Operation::Cli => Regs { p: set_flag(r.p, SR_INTERRUPT_MASK, false), ..r },
        Operation::Sei => Regs { p: set_flag(r.p, SR_INTERRUPT_MASK, true), ..r },
        Operation::Clv => Regs { p: set_flag(r.p, SR_OVERFLOW, false), ..r },
        Operation::Cld => Regs { p: set_flag(r.p, SR_BCD, false), ..r },
        Operation::Sed => Regs { p: set_flag(r.p, SR_BCD, true), ..r },
        Operation::Inx => {
            let x = r.x.wrapping_add(1);
            Regs { x, p: set_nz(r.p, x), ..r }
        },
        Operation::Iny => {
            let y = r.y.wrapping_add(1);
            Regs { y, p: set_nz(r.p, y), ..r }
        },
        Operation::Dex => {
            let x = r.x.wrapping_sub(1);
            Regs { x, p: set_nz(r.p, x), ..r }
        },
        Operation::Dey => {
            let y = r.y.wrapping_sub(1);
            Regs { y, p: set_nz(r.p, y), ..r }
        },
        Operation::Tax => Regs { x: r.ac, p: set_nz(r.p, r.ac), ..r },
        Operation::Tay => Regs { y: r.ac, p: set_nz(r.p, r.ac), ..r },
        Operation::Txa => Regs { ac: r.x, p: set_nz(r.p, r.x), ..r },
        Operation::Tya => Regs { ac: r.y, p: set_nz(r.p, r.y), ..r },
        Operation::Tsx => Regs { x: r.sp, p: set_nz(r.p, r.sp), ..r },
        Operation::Txs => Regs { sp: r.x, ..r },
        _ => r,
    }
}

/// `with_flag` leaves exactly the flag it was asked to set or clear.
pub proof fn lemma_with_flag_carry(p: u8, on: bool)
    ensures
        flag(with_flag(p, SR_CARRY, on), SR_CARRY) == on,
{
    let q = with_flag(p, SR_CARRY, on);
    assert(q & 1 != 0 <==> on) by (bit_vector)
        requires
            q == (if on { p | 1u8 } else { p & !1u8 }),
    ;
}

/// Setting N and Z leaves the carry flag alone.
pub proof fn lemma_nz_keeps_carry(p: u8, v: u8)
    ensures
        flag(with_nz(p, v), SR_CARRY) == flag(p, SR_CARRY),
{
    let z = v == 0;
    let n = v >= 0x80;
    let p1 = with_flag(p, SR_ZERO, z);
    assert(p1 & 1 == p & 1) by (bit_vector)
        requires
            p1 == (if z { p | 2u8 } else { p & !2u8 }),
    ;
    let p2 = with_flag(p1, SR_NEGATIVE, n);
    assert(p2 & 1 == p1 & 1) by (bit_vector)
        requires
            p2 == (if n { p1 | 0x80u8 } else { p1 & !0x80u8 }),
    ;
}

/// Binary ADC yields the sum modulo 256 and a carry exactly when the sum
/// reaches 256.
pub proof fn lemma_adc_binary(r: Regs, v: u8)
    requires
        !flag(r.p, SR_BCD),
    ensures
        read_op(Operation::Adc, r, v).ac == (r.ac + v + carry_in(r.p)) % 256,
        flag(read_op(Operation::Adc, r, v).p, SR_CARRY) == (r.ac + v + carry_in(r.p) >= 256),
{
    let sum = r.ac + v + carry_in(r.p);
    let res = (sum % 256) as u8;
    let overflow = (r.ac ^ res) & (v ^ res) & 0x80 != 0;
    let p1 = with_flag(with_flag(r.p, SR_OVERFLOW, overflow), SR_CARRY, sum >= 256);
    lemma_with_flag_carry(with_flag(r.p, SR_OVERFLOW, overflow), sum >= 256);
    lemma_nz_keeps_carry(p1, res);
}

} // verus!
