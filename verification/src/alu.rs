//! The arithmetic of the basic instructions, on 16-bit words.
//!
//! Each operation takes the two operand values and the current `EX` and
//! gives the word that goes to `b` and the new `EX`. Signed variants read
//! the same bits as two's-complement numbers.

use vstd::prelude::*;
use crate::instructions::{
    ADD, ADX, AND, ASR, BOR, DIV, DVI, IFA, IFB, IFC, IFE, IFG, IFL, IFN, IFU, MDI, MLI, MOD, MUL,
    SBX, SET, SHL, SHR, STD, STI, SUB, XOR,
};

verus! {

/// The two's-complement reading of a word.
pub open spec fn signed(v: u16) -> int {
    if v < 0x8000 {
        v as int
    } else {
        v as int - 0x10000
    }
}

/// The word that is congruent to `i` modulo 2^16.
pub open spec fn wrap16(i: int) -> u16 {
    (i % 0x10000) as u16
}

/// Quotient rounded toward zero; `d` is not zero.
pub open spec fn trunc_div(n: int, d: int) -> int {
    if n >= 0 && d > 0 {
        n / d
    } else if n >= 0 {
        -(n / (-d))
    } else if d > 0 {
        -((-n) / d)
    } else {
        (-n) / (-d)
    }
}

/// Remainder with the sign of the dividend; `d` is not zero.
pub open spec fn trunc_rem(n: int, d: int) -> int {
    let m = if d > 0 { d } else { -d };
    if n >= 0 {
        n % m
    } else {
        -((-n) % m)
    }
}

/// What an arithmetic instruction leaves: the word for `b` and `EX`.
pub struct Outcome {
    pub value: u16,
    pub ex: u16,
}

/// Whether `opcode` is one of the eight conditionals `IFB`..`IFU`.
pub open spec fn is_conditional(opcode: usize) -> bool {
    0x10 <= opcode <= 0x17
}

/// Whether `opcode` computes a word for `b` (everything but the
/// conditionals and the reserved codes).
pub open spec fn is_arithmetic(opcode: usize) -> bool {
    1 <= opcode <= 0x0f || opcode == ADX || opcode == SBX || opcode == STI || opcode == STD
}

/// The low sixteen bits of `(b << 16) >> a`, as a 32-bit logical shift.
/// Shifting by 32 or more leaves nothing.
pub open spec fn shifted_out_right(b: u16, a: u16) -> u16 {
    if a >= 32 {
        0
    } else {
        ((((b as u32) << 16) >> (a as u32)) & 0xffff) as u16
    }
}

/// Bits 16 to 31 of `b << a`. Shifting by 32 or more leaves nothing.
pub open spec fn shifted_out_left(b: u16, a: u16) -> u16 {
    if a >= 32 {
        0
    } else {
        ((((b as u32) << (a as u32)) >> 16) & 0xffff) as u16
    }
}

/// `b >> a` without sign; a shift by 16 or more gives zero.
pub open spec fn logical_shr(b: u16, a: u16) -> u16 {
    if a >= 16 {
        0
    } else {
        b >> a
    }
}

/// `b >> a` keeping the sign bit; a shift by 16 or more gives all sign bits.
pub open spec fn arithmetic_shr(b: u16, a: u16) -> u16 {
    if a >= 16 {
        if b >= 0x8000 {
            0xffff
        } else {
            0
        }
    } else {
        (((b as i16) >> a) as u16)
    }
}

/// `b << a` in sixteen bits; a shift by 16 or more gives zero.
pub open spec fn logical_shl(b: u16, a: u16) -> u16 {
    if a >= 16 {
        0
    } else {
        b << a
    }
}

/// The word for `b` and the new `EX` of the arithmetic instruction
/// `opcode` on operand values `a` and `b` with `EX` equal to `ex`.
pub open spec fn compute(opcode: usize, a: u16, b: u16, ex: u16) -> Outcome {
    if opcode == SET || opcode == STI || opcode == STD {
        Outcome { value: a, ex }
    } else if opcode == ADD {
        Outcome { value: wrap16(b + a), ex: if b + a > 0xffff { 1 } else { 0 } }
    } else if opcode == SUB {
        Outcome { value: wrap16(b - a), ex: if a > b { 0xffff } else { 0 } }
    } else if opcode == MUL {
        Outcome { value: wrap16(b * a), ex: wrap16((b * a) / 0x10000) }
    } else if opcode == MLI {
        Outcome {
            value: wrap16(signed(b) * signed(a)),
            ex: wrap16((signed(b) * signed(a)) / 0x10000),
        }
    } else if opcode == DIV {
        if a == 0 {
            Outcome { value: 0, ex: 0 }
        } else {
            Outcome { value: b / a, ex: wrap16((b * 0x10000) / (a as int)) }
        }
    } else if opcode == DVI {
        if a == 0 {
            Outcome { value: 0, ex: 0 }
        } else {
            Outcome {
                value: wrap16(trunc_div(signed(b), signed(a))),
                ex: wrap16(trunc_div(signed(b) * 0x10000, signed(a))),
            }
        }
    } else if opcode == MOD {
        Outcome { value: if a == 0 { 0 } else { b % a }, ex }
    } else if opcode == MDI {
        Outcome { value: if a == 0 { 0 } else { wrap16(trunc_rem(signed(b), signed(a))) }, ex }
    } else if opcode == AND {
        Outcome { value: b & a, ex }
    } else if opcode == BOR {
        Outcome { value: b | a, ex }
    } else if opcode == XOR {
        Outcome { value: b ^ a, ex }
    } else if opcode == SHR {
        Outcome { value: logical_shr(b, a), ex: shifted_out_right(b, a) }
    } else if opcode == ASR {
        Outcome { value: arithmetic_shr(b, a), ex: shifted_out_right(b, a) }
    } else if opcode == SHL {
        Outcome { value: logical_shl(b, a), ex: shifted_out_left(b, a) }
    } else if opcode == ADX {
        Outcome { value: wrap16(b + a + ex), ex: if b + a + ex > 0xffff { 1 } else { 0 } }
    } else if opcode == SBX {
        Outcome { value: wrap16(b - a + ex), ex: if b - a + ex < 0 { 0xffff } else { 0 } }
    } else {
        Outcome { value: b, ex }
    }
}

/// Whether the conditional `opcode` holds of `b` and `a`, so that the
/// next instruction runs.
pub open spec fn holds(opcode: usize, a: u16, b: u16) -> bool {
    if opcode == IFB {
        b & a != 0
    } else if opcode == IFC {
        b & a == 0
    } else if opcode == IFE {
        b == a
    } else if opcode == IFN {
        b != a
    } else if opcode == IFG {
        b > a
    } else if opcode == IFA {
        signed(b) > signed(a)
    } else if opcode == IFL {
        b < a
    } else if opcode == IFU {
        signed(b) < signed(a)
    } else {
        true
    }
}

/// The size of a signed word, without its sign.
fn magnitude(v: i16) -> (m: u32)
    ensures
        m as int == if v >= 0 { v as int } else { -(v as int) },
{
    if v >= 0 {
        v as u32
    } else {
        (-(v as i32)) as u32
    }
}

/// The word congruent to `sign * m` modulo 2^16.
fn wrap_signed(negative: bool, m: u32) -> (r: u16)
    ensures
        r == wrap16(if negative { -(m as int) } else { m as int }),
{
    let low: u32 = m % 0x10000;
    if negative && low != 0 {
        (0x10000 - low) as u16
    } else {
        low as u16
    }
}

/// Computes an arithmetic instruction.
pub fn execute_arithmetic(opcode: usize, a: u16, b: u16, ex: u16) -> (r: Outcome)
    ensures
        r == compute(opcode, a, b, ex),
{
    if opcode == SET || opcode == STI || opcode == STD {
        Outcome { value: a, ex }
    } else if opcode == ADD {
        let sum: u32 = b as u32 + a as u32;
        Outcome { value: (sum % 0x10000) as u16, ex: if sum > 0xffff { 1 } else { 0 } }
    } else if opcode == SUB {
        Outcome { value: b.wrapping_sub(a), ex: if a > b { 0xffff } else { 0 } }
    } else if opcode == MUL {
        assert(0 <= b * a <= 0xffff * 0xffff) by (nonlinear_arith)
            requires
                0 <= a <= 0xffff,
                0 <= b <= 0xffff,
        ;
        let p: u32 = (b as u32) * (a as u32);
        Outcome { value: (p % 0x10000) as u16, ex: (p / 0x10000) as u16 }
    } else if opcode == MLI {
        let sa = to_signed(a);
        let sb = to_signed(b);
        let ma = magnitude(sa);
        let mb = magnitude(sb);
        assert(0 <= mb * ma <= 0x8000 * 0x8000) by (nonlinear_arith)
            requires
                0 <= ma <= 0x8000,
                0 <= mb <= 0x8000,
        ;
        let p: u32 = mb * ma;
        let negative = (sa < 0) != (sb < 0);
        proof {
            let sp = signed(b) * signed(a);
            assert(sp == if negative { -(p as int) } else { p as int }) by (nonlinear_arith)
                requires
                    sp == signed(b) * signed(a),
                    p == mb * ma,
                    mb as int == if signed(b) >= 0 { signed(b) } else { -signed(b) },
                    ma as int == if signed(a) >= 0 { signed(a) } else { -signed(a) },
                    negative == ((signed(a) < 0) != (signed(b) < 0)),
            ;
        }
        let value = wrap_signed(negative, p);
        // floor(-p / 2^16) is -ceil(p / 2^16)
        let high: u32 = if negative { (p + 0xffff) / 0x10000 } else { p / 0x10000 };
        let ex = wrap_signed(negative, high);
        Outcome { value, ex }
    } else if opcode == DIV {
        if a == 0 {
            Outcome { value: 0, ex: 0 }
        } else {
            let q: u32 = ((b as u32) * 0x10000) / (a as u32);
            Outcome { value: b / a, ex: (q % 0x10000) as u16 }
        }
    } else if opcode == DVI {
        if a == 0 {
            Outcome { value: 0, ex: 0 }
        } else {
            let sa = to_signed(a);
            let sb = to_signed(b);
            let ma = magnitude(sa);
            let mb = magnitude(sb);
            let negative = (sa < 0) != (sb < 0);
            let q: u32 = mb / ma;
            let wide: u32 = (mb * 0x10000) / ma;
            let value = wrap_signed(negative, q);
            let ex = wrap_signed(negative, wide);
            Outcome { value, ex }
        }
    } else if opcode == MOD {
        Outcome { value: if a == 0 { 0 } else { b % a }, ex }
    } else if opcode == MDI {
        if a == 0 {
            Outcome { value: 0, ex }
        } else {
            let sa = to_signed(a);
            let sb = to_signed(b);
            let ma = magnitude(sa);
            let mb = magnitude(sb);
            let value = wrap_signed(sb < 0, mb % ma);
            Outcome { value, ex }
        }
    } else if opcode == AND {
        Outcome { value: b & a, ex }
    } else if opcode == BOR {
        Outcome { value: b | a, ex }
    } else if opcode == XOR {
        Outcome { value: b ^ a, ex }
    } else if opcode == SHR {
        Outcome { value: shift_right(b, a), ex: out_right(b, a) }
    } else if opcode == ASR {
        Outcome { value: shift_right_signed(b, a), ex: out_right(b, a) }
    } else if opcode == SHL {
        Outcome { value: shift_left(b, a), ex: out_left(b, a) }
    } else if opcode == ADX {
        let sum: u32 = b as u32 + a as u32 + ex as u32;
        Outcome { value: (sum % 0x10000) as u16, ex: if sum > 0xffff { 1 } else { 0 } }
    } else if opcode == SBX {
        let d: i32 = b as i32 - a as i32 + ex as i32;
        if d < 0 {
            Outcome { value: (d + 0x10000) as u16, ex: 0xffff }
        } else {
            Outcome { value: (d % 0x10000) as u16, ex: 0 }
        }
    } else {
        Outcome { value: b, ex }
    }
}

fn shift_right(b: u16, a: u16) -> (r: u16)
    ensures
        r == logical_shr(b, a),
{
    if a >= 16 {
        0
    } else {
        b >> a
    }
}

fn shift_right_signed(b: u16, a: u16) -> (r: u16)
    ensures
        r == arithmetic_shr(b, a),
{
    if a >= 16 {
        if b >= 0x8000 {
            0xffff
        } else {
            0
        }
    } else {
        ((b as i16) >> a) as u16
    }
}

fn shift_left(b: u16, a: u16) -> (r: u16)
    ensures
        r == logical_shl(b, a),
{
    if a >= 16 {
        0
    } else {
        b << a
    }
}

fn out_right(b: u16, a: u16) -> (r: u16)
    ensures
        r == shifted_out_right(b, a),
{
    if a >= 32 {
        0
    } else {
        let wide: u32 = (((b as u32) << 16) >> (a as u32)) & 0xffff;
        assert(wide <= 0xffff) by (bit_vector)
            requires
                wide == ((((b as u32) << 16) >> (a as u32)) & 0xffff),
        ;
        wide as u16
    }
}

fn out_left(b: u16, a: u16) -> (r: u16)
    ensures
        r == shifted_out_left(b, a),
{
    if a >= 32 {
        0
    } else {
        let wide: u32 = (((b as u32) << (a as u32)) >> 16) & 0xffff;
        assert(wide <= 0xffff) by (bit_vector)
            requires
                wide == ((((b as u32) << (a as u32)) >> 16) & 0xffff),
        ;
        wide as u16
    }
}

/// Decides a conditional instruction.
pub fn test_condition(opcode: usize, a: u16, b: u16) -> (r: bool)
    ensures
        r == holds(opcode, a, b),
{
    if opcode == IFB {
        b & a != 0
    } else if opcode == IFC {
        b & a == 0
    } else if opcode == IFE {
        b == a
    } else if opcode == IFN {
        b != a
    } else if opcode == IFG {
        b > a
    } else if opcode == IFA {
        to_signed(b) > to_signed(a)
    } else if opcode == IFL {
        b < a
    } else if opcode == IFU {
        to_signed(b) < to_signed(a)
    } else {
        true
    }
}

/// The word read as a signed number.
pub fn to_signed(v: u16) -> (r: i16)
    ensures
        r as int == signed(v),
{
    let r = v as i16;
    assert(v < 0x8000 ==> (v as i16) as int == v as int) by (bit_vector);
    assert(v >= 0x8000 ==> (v as i16) as int == v as int - 0x10000) by (bit_vector);
    r
}

} // verus!
