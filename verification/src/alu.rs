//! The data path of one cycle: the ALU, the flags it leaves in the status
//! register, and the shifter behind it.
//!
//! Everything here is combinational: each function maps the values on its
//! inputs to the values on its outputs and touches nothing else.

use vstd::prelude::*;
use crate::micro_code::{AluOp, ShiftOp};

verus! {

/// Status bit 0: the ALU's output had its top bit set.
pub const NEGATIVE: u8 = 0x01;

/// Status bit 1: the ALU's output was zero.
pub const ZERO: u8 = 0x02;

/// Status bit 2: carry.
pub const CARRY: u8 = 0x04;

/// Status bit 3: overflow.
pub const OVERFLOW: u8 = 0x08;

/// The status bits that no cycle computes.
pub const RESERVED: u8 = 0xf0;

/// Whether the flag `mask` is set in `status`.
pub open spec fn flag(status: u8, mask: u8) -> bool {
    status & mask != 0
}

/// `status` with the flag `mask` set to `on` and every other bit as it was.
pub open spec fn with_flag(status: u8, mask: u8, on: bool) -> u8 {
    if on {
        status | mask
    } else {
        status & !mask
    }
}

/// The value of a byte read as a two's-complement number.
pub open spec fn signed(v: u8) -> int {
    if v < 128 {
        v as int
    } else {
        v - 256
    }
}

/// The byte that stands for `i` modulo 256.
pub open spec fn wrap8(i: int) -> u8 {
    (i % 256) as u8
}

/// A byte moved one place to the right, with `top` in the vacated top bit.
pub open spec fn shifted_right(v: u8, top: bool) -> u8 {
    (v / 2 + if top { 128int } else { 0int }) as u8
}

/// A byte moved one place to the left, with `low` in the vacated low bit.
/// The bit that leaves at the top is dropped.
pub open spec fn shifted_left(v: u8, low: bool) -> u8 {
    ((v * 2) % 256 + if low { 1int } else { 0int }) as u8
}

/// The negative flag that an ALU output gives.
pub open spec fn negative_of(alu_out: u8) -> bool {
    alu_out >= 128
}

/// The zero flag that an ALU output gives.
pub open spec fn zero_of(alu_out: u8) -> bool {
    alu_out == 0
}

/// The carry flag that the operands give: whether their unsigned sum leaves
/// the range of a byte. The test is that of an addition whatever the ALU
/// computed.
pub open spec fn carry_of(x: u8, y: u8) -> bool {
    x + y > 255
}

/// The overflow flag that the operands give: whether the sum of the two,
/// read as two's-complement numbers, leaves the range -128..=127. The test is
/// that of an addition whatever the ALU computed.
pub open spec fn overflow_of(x: u8, y: u8) -> bool {
    signed(x) + signed(y) < -128 || signed(x) + signed(y) > 127
}

/// The four flags packed into the low bits of a byte.
pub open spec fn flags_of(x: u8, y: u8, alu_out: u8) -> u8 {
    (if negative_of(alu_out) { NEGATIVE } else { 0u8 })
        | (if zero_of(alu_out) { ZERO } else { 0u8 })
        | (if carry_of(x, y) { CARRY } else { 0u8 })
        | (if overflow_of(x, y) { OVERFLOW } else { 0u8 })
}

/// The status register after a cycle that recomputes the flags: the reserved
/// bits stay, the four flags are those of this cycle.
pub open spec fn status_after_alu(status: u8, x: u8, y: u8, alu_out: u8) -> u8 {
    (status & RESERVED) | flags_of(x, y, alu_out)
}

/// Reading a flag back from `with_flag` gives what was written, the other
/// bits are those of the old status, and writing what a flag holds already
/// changes nothing.
pub proof fn lemma_with_flag(status: u8, mask: u8, on: bool)
    requires
        mask != 0,
    ensures
        flag(with_flag(status, mask, on), mask) == on,
        with_flag(status, mask, on) & !mask == status & !mask,
        (status & mask == if on { mask } else { 0u8 }) ==> with_flag(status, mask, on) == status,
{
    assert((status | mask) & mask != 0 && (status | mask) & !mask == status & !mask && (status
        & mask == mask ==> status | mask == status)) by (bit_vector)
        requires
            mask != 0,
    ;
    assert((status & !mask) & mask == 0 && (status & !mask) & !mask == status & !mask && (status
        & mask == 0 ==> status & !mask == status)) by (bit_vector);
}

/// The flags of `status_after_alu` are those of the cycle, and its reserved
/// bits are those of the old status.
pub proof fn lemma_status_after_alu(status: u8, x: u8, y: u8, alu_out: u8)
    ensures
        flag(status_after_alu(status, x, y, alu_out), NEGATIVE) == negative_of(alu_out),
        flag(status_after_alu(status, x, y, alu_out), ZERO) == zero_of(alu_out),
        flag(status_after_alu(status, x, y, alu_out), CARRY) == carry_of(x, y),
        flag(status_after_alu(status, x, y, alu_out), OVERFLOW) == overflow_of(x, y),
        status_after_alu(status, x, y, alu_out) & RESERVED == status & RESERVED,
{
    let n: u8 = if negative_of(alu_out) { NEGATIVE } else { 0u8 };
    let z: u8 = if zero_of(alu_out) { ZERO } else { 0u8 };
    let c: u8 = if carry_of(x, y) { CARRY } else { 0u8 };
    let v: u8 = if overflow_of(x, y) { OVERFLOW } else { 0u8 };
    let s = (status & 0xf0) | (n | z | c | v);
    assert(s == status_after_alu(status, x, y, alu_out));
    assert((s & 1 != 0) == (n != 0) && (s & 2 != 0) == (z != 0) && (s & 4 != 0) == (c != 0) && (s
        & 8 != 0) == (v != 0) && s & 0xf0 == status & 0xf0) by (bit_vector)
        requires
            s == (status & 0xf0) | (n | z | c | v),
            n == 0 || n == 1,
            z == 0 || z == 2,
            c == 0 || c == 4,
            v == 0 || v == 8,
    ;
}

/// Read one flag of the status register.
pub fn test_flag(status: u8, mask: u8) -> (on: bool)
    ensures
        on == flag(status, mask),
{
    status & mask != 0
}

/// Write one flag of the status register.
pub fn set_flag(status: u8, mask: u8, on: bool) -> (r: u8)
    ensures
        r == with_flag(status, mask, on),
{
    if on {
        status | mask
    } else {
        status & !mask
    }
}

impl AluOp {
    /// What the ALU puts out for the operands `x` and `y`. The sums and
    /// differences wrap at the byte boundary; the two unary operations take no
    /// notice of `y`.
    pub open spec fn result(self, x: u8, y: u8) -> u8 {
        match self {
            AluOp::XPlusY => wrap8(x + y),
            AluOp::XMinusY => wrap8(x - y),
            AluOp::XAndY => x & y,
            AluOp::XorY => x | y,
            AluOp::XxorY => x ^ y,
            AluOp::XPlus1 => wrap8(x + 1),
            AluOp::XMinus1 => wrap8(x - 1),
        }
    }

    /// Compute the ALU's output.
    pub fn apply(self, x: u8, y: u8) -> (alu_out: u8)
        ensures
            alu_out == self.result(x, y),
            self == AluOp::XPlusY ==> alu_out as int == (x + y) % 256,
            self == AluOp::XMinusY ==> alu_out as int == (x - y) % 256,
            self == AluOp::XPlus1 ==> alu_out as int == (x + 1) % 256,
            self == AluOp::XMinus1 ==> alu_out as int == (x - 1) % 256,
    {
        match self {
            AluOp::XPlusY => x.wrapping_add(y),
            AluOp::XMinusY => x.wrapping_sub(y),
            AluOp::XAndY => x & y,
            AluOp::XorY => x | y,
            AluOp::XxorY => x ^ y,
            AluOp::XPlus1 => x.wrapping_add(1),
            AluOp::XMinus1 => x.wrapping_sub(1),
        }
    }
}

/// Recompute the four flags of `status` from the operands and the ALU's
/// output.
pub fn update_flags(status: u8, x: u8, y: u8, alu_out: u8) -> (r: u8)
    ensures
        r == status_after_alu(status, x, y, alu_out),
        flag(r, NEGATIVE) == negative_of(alu_out),
        flag(r, ZERO) == zero_of(alu_out),
        flag(r, CARRY) == carry_of(x, y),
        flag(r, OVERFLOW) == overflow_of(x, y),
        r & RESERVED == status & RESERVED,
{
    let sx: i16 = if x < 128 { x as i16 } else { x as i16 - 256 };
    let sy: i16 = if y < 128 { y as i16 } else { y as i16 - 256 };
    let sum: i16 = sx + sy;
    let n: u8 = if alu_out & 0x80 != 0 { NEGATIVE } else { 0 };
    let z: u8 = if alu_out == 0 { ZERO } else { 0 };
    let c: u8 = if x as u16 + y as u16 > 255 { CARRY } else { 0 };
    let v: u8 = if sum < -128 || sum > 127 { OVERFLOW } else { 0 };
    proof {
        assert((alu_out & 0x80 != 0) == (alu_out >= 128)) by (bit_vector);
        lemma_status_after_alu(status, x, y, alu_out);
    }
    (status & RESERVED) | (n | z | c | v)
}

impl ShiftOp {
    /// What the shifter puts out for the ALU output `alu_out`, the
    /// instruction's shift-in bit `sin` and the carry flag `carry` as it stood
    /// when the cycle began.
    pub open spec fn result(self, alu_out: u8, sin: bool, carry: bool) -> u8 {
        match self {
            ShiftOp::Nop => alu_out,
            ShiftOp::RRwC => shifted_right(alu_out, carry),
            ShiftOp::RlwC => shifted_left(alu_out, carry),
            ShiftOp::SRL => shifted_right(alu_out, sin),
            ShiftOp::SLL => shifted_left(alu_out, sin),
            ShiftOp::SRA => shifted_right(alu_out, alu_out >= 128),
            ShiftOp::SLA => shifted_left(alu_out, sin),
        }
    }

    /// The bit that the shift moves out of `alu_out`, or `None` where nothing
    /// is shifted.
    pub open spec fn carry_out(self, alu_out: u8) -> Option<bool> {
        match self {
            ShiftOp::Nop => None,
            ShiftOp::RRwC | ShiftOp::SRL | ShiftOp::SRA => Some(alu_out % 2 == 1),
            ShiftOp::RlwC | ShiftOp::SLL | ShiftOp::SLA => Some(alu_out >= 128),
        }
    }

    /// The status register after the shift: the carry flag holds the bit that
    /// was moved out, and every other bit is as it was. Without a shift the
    /// status is unchanged.
    pub open spec fn status(self, status: u8, alu_out: u8) -> u8 {
        match self.carry_out(alu_out) {
            Some(c) => with_flag(status, CARRY, c),
            None => status,
        }
    }

    /// Run the shifter. `carry` is the carry flag as it stood when the cycle
    /// began, `status` the status register as the ALU left it. Returns the
    /// shifter's output and the status register with the shift's carry in it.
    pub fn apply(self, alu_out: u8, sin: bool, carry: bool, status: u8) -> (r: (u8, u8))
        ensures
            r.0 == self.result(alu_out, sin, carry),
            r.1 == self.status(status, alu_out),
            flag(r.1, CARRY) == match self.carry_out(alu_out) {
                Some(moved_out) => moved_out,
                None => flag(status, CARRY),
            },
            r.1 & !CARRY == status & !CARRY,
    {
        proof {
            lemma_with_flag(status, CARRY, alu_out % 2 == 1);
            lemma_with_flag(status, CARRY, alu_out >= 128);
            assert(alu_out >> 1u8 == alu_out / 2 && (alu_out >> 1u8) | 0x80 == alu_out / 2 + 128
                && alu_out << 1u8 == (alu_out * 2) % 256 && (alu_out << 1u8) | 0x01 == (alu_out
                * 2) % 256 + 1 && (alu_out & 0x01 != 0) == (alu_out % 2 == 1) && (alu_out & 0x80
                != 0) == (alu_out >= 128)) by (bit_vector);
        }
        let low: bool = alu_out & 0x01 != 0;
        let high: bool = alu_out & 0x80 != 0;
        let right: u8 = alu_out >> 1u8;
        let left: u8 = alu_out << 1u8;
        match self {
            ShiftOp::Nop => (alu_out, status),
            ShiftOp::RRwC => (if carry { right | 0x80 } else { right }, set_flag(status, CARRY, low)),
            ShiftOp::RlwC => (if carry { left | 0x01 } else { left }, set_flag(status, CARRY, high)),
            ShiftOp::SRL => (if sin { right | 0x80 } else { right }, set_flag(status, CARRY, low)),
            ShiftOp::SRA => (if high { right | 0x80 } else { right }, set_flag(status, CARRY, low)),
            ShiftOp::SLL | ShiftOp::SLA => (
                if sin { left | 0x01 } else { left },
                set_flag(status, CARRY, high),
            ),
        }
    }
}

/// Rotating a byte right through the carry and then left through the carry
/// gives back the byte, the carry and the whole status register.
pub proof fn lemma_rotate_right_then_left(alu_out: u8, status: u8, sin: bool, sin2: bool)
    ensures
        ({
            let carry = flag(status, CARRY);
            let z1 = ShiftOp::RRwC.result(alu_out, sin, carry);
            let s1 = ShiftOp::RRwC.status(status, alu_out);
            let z2 = ShiftOp::RlwC.result(z1, sin2, flag(s1, CARRY));
            let s2 = ShiftOp::RlwC.status(s1, z1);
            &&& z2 == alu_out
            &&& flag(s2, CARRY) == carry
            &&& s2 == status
        }),
{
    let carry = flag(status, CARRY);
    let z1 = ShiftOp::RRwC.result(alu_out, sin, carry);
    let s1 = ShiftOp::RRwC.status(status, alu_out);
    lemma_with_flag(status, CARRY, alu_out % 2 == 1);
    lemma_with_flag(s1, CARRY, z1 >= 128);
    let s2 = ShiftOp::RlwC.status(s1, z1);
    assert(s2 & !CARRY == status & !CARRY);
    assert(flag(s2, CARRY) == flag(status, CARRY));
    assert(s2 == status) by (bit_vector)
        requires
            s2 & !4u8 == status & !4u8,
            (s2 & 4u8 != 0) == (status & 4u8 != 0),
    ;
}

} // verus!
