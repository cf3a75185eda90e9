use vstd::prelude::*;
use crate::frame::{top_int, Frame};
use crate::value::{JavaException, Trap, VmError, VmValue};

verus! {

pub const IADD: u8 = 0x60;

pub const ISUB: u8 = 0x64;

pub const IMUL: u8 = 0x68;

pub const IDIV: u8 = 0x6c;

pub const IREM: u8 = 0x70;

pub const IUSHR: u8 = 0x7c;

/// Division truncated toward zero, as the JVM's `idiv` computes it over the
/// integers before wrapping to 32 bits.
pub open spec fn trunc_div(a: int, b: int) -> int
    recommends
        b != 0,
{
    let q = abs(a) / abs(b);
    if (a < 0) != (b < 0) {
        -q
    } else {
        q
    }
}

pub open spec fn abs(x: int) -> int {
    if x < 0 {
        -x
    } else {
        x
    }
}

/// A value brought into the 32-bit two's-complement range.
pub open spec fn wrap32(x: int) -> i32 {
    #[verifier::truncate]
    (x as i32)
}

/// What the binary int instruction `op` gives on operands `a` and `b`
/// (`a` pushed first); `None` where `op` is not one.
pub open spec fn int_binop(op: u8, a: i32, b: i32) -> Option<Result<i32, JavaException>> {
    if op == IADD {
        Some(Ok(wrap32(a + b)))
    } else if op == ISUB {
        Some(Ok(wrap32(a - b)))
    } else if op == IMUL {
        Some(Ok(wrap32(a * b)))
    } else if op == IDIV {
        Some(if b == 0 { Err(JavaException::Arithmetic) } else { Ok(wrap32(trunc_div(a as int, b as int))) })
    } else if op == IREM {
        Some(if b == 0 { Err(JavaException::Arithmetic) } else { Ok(wrap32(a - trunc_div(a as int, b as int) * b)) })
    } else if op == IUSHR {
        Some(Ok(ushr32(a, b)))
    } else {
        None
    }
}

/// `iushr`: the bits of `a` shifted right, zeros in from the left, by the
/// low five bits of `b`.
pub open spec fn ushr32(a: i32, b: i32) -> i32 {
    let ua = #[verifier::truncate] (a as u32);
    let sh = (#[verifier::truncate] (b as u32)) & 31u32;
    #[verifier::truncate] ((ua >> sh) as i32)
}

/// `idiv`: truncating division; a zero divisor raises
/// `ArithmeticException`, and `i32::MIN / -1` wraps to `i32::MIN`.
pub fn idiv(a: i32, b: i32) -> (r: Result<i32, JavaException>)
    ensures
        b == 0 ==> r == Err::<i32, JavaException>(JavaException::Arithmetic),
        b != 0 ==> r == Ok::<i32, JavaException>(wrap32(trunc_div(a as int, b as int))),
{
    if b == 0 {
        return Err(JavaException::Arithmetic);
    }
    let x = a as i64;
    let y = b as i64;
    let ux: i64 = if x < 0 { -x } else { x };
    let uy: i64 = if y < 0 { -y } else { y };
    let q: i64 = ux / uy;
    assert(q <= ux) by (nonlinear_arith)
        requires
            ux >= 0,
            uy >= 1,
            q == ux / uy,
    ;
    let s: i64 = if (x < 0) != (y < 0) { -q } else { q };
    Ok(#[verifier::truncate] (s as i32))
}

/// `irem`: the remainder that goes with `idiv`'s quotient; a zero divisor
/// raises `ArithmeticException`.
pub fn irem(a: i32, b: i32) -> (r: Result<i32, JavaException>)
    ensures
        b == 0 ==> r == Err::<i32, JavaException>(JavaException::Arithmetic),
        b != 0 ==> r == Ok::<i32, JavaException>(wrap32(a - trunc_div(a as int, b as int) * b)),
{
    if b == 0 {
        return Err(JavaException::Arithmetic);
    }
    let x = a as i64;
    let y = b as i64;
    let ux: i64 = if x < 0 { -x } else { x };
    let uy: i64 = if y < 0 { -y } else { y };
    let q: i64 = ux / uy;
    assert(0 <= q <= ux) by (nonlinear_arith)
        requires
            ux >= 0,
            uy >= 1,
            q == ux / uy,
    ;
    let s: i64 = if (x < 0) != (y < 0) { -q } else { q };
    assert(-2147483648 * 2147483648 <= s * y <= 2147483648 * 2147483648) by (nonlinear_arith)
        requires
            -2147483648 <= s <= 2147483648,
            -2147483648 <= y <= 2147483647,
    ;
    let m: i64 = x - s * y;
    Ok(#[verifier::truncate] (m as i32))
}

/// Computes the binary int instruction `op`.
pub fn int_binop_exec(op: u8, a: i32, b: i32) -> (r: Option<Result<i32, JavaException>>)
    ensures
        r == int_binop(op, a, b),
{
    if op == IADD {
        Some(Ok(#[verifier::truncate] ((a as i64 + b as i64) as i32)))
    } else if op == ISUB {
        Some(Ok(#[verifier::truncate] ((a as i64 - b as i64) as i32)))
    } else if op == IMUL {
        assert(-2147483648 * 2147483648 <= a * b <= 2147483648 * 2147483648) by (nonlinear_arith)
            requires
                -2147483648 <= a <= 2147483647,
                -2147483648 <= b <= 2147483647,
        ;
        Some(Ok(#[verifier::truncate] ((a as i64 * b as i64) as i32)))
    } else if op == IDIV {
        Some(idiv(a, b))
    } else if op == IREM {
        Some(irem(a, b))
    } else if op == IUSHR {
        let ua: u32 = #[verifier::truncate] (a as u32);
        let x: u32 = #[verifier::truncate] (b as u32);
        let sh: u32 = x & 31u32;
        assert(sh < 32) by (bit_vector)
            requires
                sh == x & 31u32,
        ;
        Some(Ok(#[verifier::truncate] ((ua >> sh) as i32)))
    } else {
        None
    }
}

/// A binary int instruction: pops `b`, then `a`, and pushes the result. An
/// `ArithmeticException` leaves the operands popped.
pub fn eval(op: u8, pc: u16, frame: &mut Frame) -> (r: Result<u16, Trap>)
    ensures
        final(frame).locals == old(frame).locals,
        final(frame).code == old(frame).code,
        final(frame).max_stack == old(frame).max_stack,
        final(frame).pc == old(frame).pc,
        old(frame).wf() ==> final(frame).wf(),
        ({
            let s = old(frame).stack@;
            match (top_int(s), top_int(s.drop_last()), int_binop(op, 0, 0)) {
                (Some(b), Some(a), Some(_)) => match int_binop(op, a, b) {
                    Some(Ok(v)) => final(frame).stack@ == s.drop_last().drop_last().push(
                        VmValue::Int(v),
                    ) && if pc < u16::MAX {
                        r == Ok::<u16, Trap>((pc + 1) as u16)
                    } else {
                        r == Err::<u16, Trap>(Trap::Bug(VmError::PcOutOfRange))
                    },
                    Some(Err(e)) => r == Err::<u16, Trap>(Trap::Throw(e))
                        && final(frame).stack@ == s.drop_last().drop_last(),
                    None => false,
                },
                _ => r is Err,
            }
        }),
{
    let b = match frame.stack_pop_int() {
        Ok(v) => v,
        Err(e) => return Err(Trap::Bug(e)),
    };
    let a = match frame.stack_pop_int() {
        Ok(v) => v,
        Err(e) => return Err(Trap::Bug(e)),
    };
    let v = match int_binop_exec(op, a, b) {
        None => return Err(Trap::Bug(VmError::UnknownOpcode(op))),
        Some(Ok(v)) => v,
        Some(Err(e)) => return Err(Trap::Throw(e)),
    };
    frame.stack.push(VmValue::Int(v));
    if pc < u16::MAX {
        Ok(pc + 1)
    } else {
        Err(Trap::Bug(VmError::PcOutOfRange))
    }
}

} // verus!
