use vstd::prelude::*;
use crate::frame::{top_int, Frame};
use crate::value::{Trap, VmError, VmValue};

verus! {

pub const IFEQ: u8 = 0x99;

pub const IFLE: u8 = 0x9e;

pub const IF_ICMPEQ: u8 = 0x9f;

pub const IF_ICMPLE: u8 = 0xa4;

pub const GOTO: u8 = 0xa7;

/// Whether the comparison of `op` (in the order eq, ne, lt, ge, gt, le)
/// holds between `a` and `b`.
pub open spec fn compare(op: u8, a: i32, b: i32) -> bool {
    let k = if op >= IF_ICMPEQ { op - IF_ICMPEQ } else { op - IFEQ };
    if k == 0 {
        a == b
    } else if k == 1 {
        a != b
    } else if k == 2 {
        a < b
    } else if k == 3 {
        a >= b
    } else if k == 4 {
        a > b
    } else {
        a <= b
    }
}

/// The signed 16-bit branch offset in the two bytes after `pc`.
pub open spec fn branch_offset(code: Seq<u8>, pc: int) -> int {
    (#[verifier::truncate] ((code[pc + 1] as int * 256 + code[pc + 2] as int) as i16)) as int
}

/// The operand stack and the next program counter (or the trap) that the
/// branch `op` at `pc` gives on stack `s`; `None` for other instructions and
/// where operands are missing.
pub open spec fn branch_effect(op: u8, code: Seq<u8>, s: Seq<VmValue>, pc: int) -> Option<
    (Seq<VmValue>, Result<int, Trap>),
> {
    if !(pc + 2 < code.len() && (op == GOTO || (IFEQ <= op <= IF_ICMPLE))) {
        None
    } else {
        let popped: Option<(bool, Seq<VmValue>)> = if op == GOTO {
            Some((true, s))
        } else if op >= IF_ICMPEQ {
            match (top_int(s), top_int(s.drop_last())) {
                (Some(b), Some(a)) => Some((compare(op, a, b), s.drop_last().drop_last())),
                _ => None,
            }
        } else {
            match top_int(s) {
                Some(a) => Some((compare(op, a, 0), s.drop_last())),
                None => None,
            }
        };
        match popped {
            None => None,
            Some((taken, st)) => {
                let t = if taken {
                    pc + branch_offset(code, pc)
                } else {
                    pc + 3
                };
                Some(
                    (
                        st,
                        if 0 <= t < code.len() && t <= u16::MAX {
                            Ok(t)
                        } else {
                            Err(Trap::Bug(VmError::PcOutOfRange))
                        },
                    ),
                )
            },
        }
    }
}

fn exec_compare(op: u8, a: i32, b: i32) -> (r: bool)
    requires
        IFEQ <= op <= IF_ICMPLE,
    ensures
        r == compare(op, a, b),
{
    let k = if op >= IF_ICMPEQ { op - IF_ICMPEQ } else { op - IFEQ };
    if k == 0 {
        a == b
    } else if k == 1 {
        a != b
    } else if k == 2 {
        a < b
    } else if k == 3 {
        a >= b
    } else if k == 4 {
        a > b
    } else {
        a <= b
    }
}

/// `goto`, `if<cond>` (an int against zero) and `if_icmp<cond>` (two ints):
/// pops the operands and returns the branch target where the condition
/// holds (always for `goto`), else the next instruction. A target outside
/// the code is a fault.
pub fn eval(op: u8, pc: u16, frame: &mut Frame) -> (r: Result<u16, Trap>)
    ensures
        final(frame).locals == old(frame).locals,
        final(frame).code == old(frame).code,
        final(frame).max_stack == old(frame).max_stack,
        final(frame).pc == old(frame).pc,
        old(frame).wf() ==> final(frame).wf(),
        r matches Ok(next) ==> (next as int) < old(frame).code@.len(),
        branch_effect(op, old(frame).code@, old(frame).stack@, pc as int) matches Some((st, res))
            ==> final(frame).stack@ == st && match res {
            Ok(t) => r == Ok::<u16, Trap>(t as u16),
            Err(x) => r == Err::<u16, Trap>(x),
        },
        ({
            let code = old(frame).code@;
            let s = old(frame).stack@;
            (pc + 2 < code.len() && (op == GOTO || IFEQ <= op <= IF_ICMPLE)) ==> {
                let taken = if op == GOTO {
                    Some(true)
                } else if op >= IF_ICMPEQ {
                    match (top_int(s), top_int(s.drop_last())) {
                        (Some(b), Some(a)) => Some(compare(op, a, b)),
                        _ => None,
                    }
                } else {
                    match top_int(s) {
                        Some(a) => Some(compare(op, a, 0)),
                        None => None,
                    }
                };
                let target = if taken == Some(true) {
                    pc + branch_offset(code, pc as int)
                } else {
                    pc + 3
                };
                match taken {
                    None => r is Err,
                    Some(_) => (0 <= target < code.len() && target <= u16::MAX) ==> r == Ok::<u16, Trap>(
                        target as u16,
                    ),
                }
            }
        }),
{
    let p = pc as usize;
    if p + 2 >= frame.code.len() || !(op == GOTO || (IFEQ <= op && op <= IF_ICMPLE)) {
        return Err(Trap::Bug(VmError::PcOutOfRange));
    }
    let raw: u16 = frame.code[p + 1] as u16 * 256 + frame.code[p + 2] as u16;
    let offset: i16 = #[verifier::truncate] (raw as i16);
    let taken = if op == GOTO {
        true
    } else if op >= IF_ICMPEQ {
        let b = match frame.stack_pop_int() {
            Ok(v) => v,
            Err(e) => return Err(Trap::Bug(e)),
        };
        let a = match frame.stack_pop_int() {
            Ok(v) => v,
            Err(e) => return Err(Trap::Bug(e)),
        };
        exec_compare(op, a, b)
    } else {
        let a = match frame.stack_pop_int() {
            Ok(v) => v,
            Err(e) => return Err(Trap::Bug(e)),
        };
        exec_compare(op, a, 0)
    };
    let target: i32 = if taken {
        pc as i32 + offset as i32
    } else {
        pc as i32 + 3
    };
    if target < 0 || target as usize >= frame.code.len() || target > u16::MAX as i32 {
        return Err(Trap::Bug(VmError::PcOutOfRange));
    }
    Ok(target as u16)
}

} // verus!
