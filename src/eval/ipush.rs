use vstd::prelude::*;
use crate::frame::Frame;
use crate::value::{Trap, VmError, VmValue};

verus! {

pub const ICONST_M1: u8 = 0x02;

pub const ICONST_5: u8 = 0x08;

pub const BIPUSH: u8 = 0x10;

pub const SIPUSH: u8 = 0x11;

/// The int that the push instruction `op` at `pc` gives, and the
/// instruction's width; `None` where `op` is no int push or its operand
/// bytes run past the code.
pub open spec fn pushed_int(op: u8, code: Seq<u8>, pc: int) -> Option<(i32, int)> {
    if ICONST_M1 <= op <= ICONST_5 {
        Some(((op - 3) as i32, 1))
    } else if op == BIPUSH && pc + 1 < code.len() {
        Some(((#[verifier::truncate] (code[pc + 1] as i8)) as i32, 2))
    } else if op == SIPUSH && pc + 2 < code.len() {
        Some(((#[verifier::truncate] ((code[pc + 1] as int * 256 + code[pc + 2] as int) as i16)) as i32, 3))
    } else {
        None
    }
}

/// `iconst_<n>`, `bipush`, `sipush`: pushes the int that the opcode or its
/// operand bytes give.
pub fn eval(op: u8, code: &Vec<u8>, pc: u16, frame: &mut Frame) -> (r: Result<u16, Trap>)
    ensures
        final(frame).locals == old(frame).locals,
        final(frame).code == old(frame).code,
        final(frame).max_stack == old(frame).max_stack,
        final(frame).pc == old(frame).pc,
        old(frame).wf() ==> final(frame).wf(),
        r is Err ==> final(frame).stack == old(frame).stack,
        match pushed_int(op, code@, pc as int) {
            None => r is Err,
            Some((v, w)) => if pc + w > u16::MAX {
                r == Err::<u16, Trap>(Trap::Bug(VmError::PcOutOfRange))
            } else if old(frame).stack@.len() >= old(frame).max_stack {
                r == Err::<u16, Trap>(Trap::Bug(VmError::StackOverflow))
            } else {
                r == Ok::<u16, Trap>((pc + w) as u16) && final(frame).stack@ == old(
                    frame
                ).stack@.push(VmValue::Int(v))
            },
        },
{
    let p = pc as usize;
    let (v, w): (i32, u16) = if ICONST_M1 <= op && op <= ICONST_5 {
        (op as i32 - 3, 1)
    } else if op == BIPUSH && p + 1 < code.len() {
        ((#[verifier::truncate] (code[p + 1] as i8)) as i32, 2)
    } else if op == SIPUSH && p + 2 < code.len() {
        let raw: u16 = code[p + 1] as u16 * 256 + code[p + 2] as u16;
        ((#[verifier::truncate] (raw as i16)) as i32, 3)
    } else {
        return Err(Trap::Bug(VmError::UnknownOpcode(op)));
    };
    if pc > u16::MAX - w {
        return Err(Trap::Bug(VmError::PcOutOfRange));
    }
    match frame.stack_push(VmValue::Int(v)) {
        Ok(()) => Ok(pc + w),
        Err(e) => Err(Trap::Bug(e)),
    }
}

} // verus!
