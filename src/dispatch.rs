use vstd::prelude::*;
use crate::eval::iarith::{IADD, IDIV, IMUL, IREM, ISUB, IUSHR};
use crate::eval::ipush::{BIPUSH, ICONST_5, ICONST_M1, SIPUSH};
use crate::eval::locals::{
    IINC, ILOAD, ILOAD_0, ILOAD_3, ISTORE, ISTORE_0, ISTORE_3, LLOAD, LLOAD_0, LLOAD_3, LSTORE,
    LSTORE_0, LSTORE_3,
};
use crate::eval::branch::{branch_effect, GOTO, IFEQ, IF_ICMPLE};
use crate::eval::getstatic::getstatic_effect;
use crate::eval::monitorenter::monitorenter_effect;
use crate::eval::new::new_effect;
use crate::eval::putstatic::putstatic_effect;
use crate::eval::dastore::dastore_effect;
use crate::eval::invoke::{invoke_target, INVOKESTATIC, IRETURN};
use crate::eval::{branch, dastore, invoke, locals, getstatic, iarith, ipush, lconst, monitorenter, new, putstatic};
use crate::eval::iarith::int_binop;
use crate::eval::ipush::pushed_int;
use crate::frame::{local_int, local_long, top_int, top_long, with_long, Frame};
use crate::value::VmValue;
use crate::model::JvmClass;
use crate::thread::VmThread;
use crate::value::{Trap, VmError};
use crate::vm::Vm;

verus! {

pub const LCONST_0: u8 = 0x09;

pub const LCONST_1: u8 = 0x0a;

pub const DASTORE: u8 = 0x52;

pub const GETSTATIC: u8 = 0xb2;

pub const MONITORENTER: u8 = 0xc2;

pub const RETURN: u8 = 0xb1;

pub const NEW: u8 = 0xbb;

pub const PUTSTATIC: u8 = 0xb3;

/// `op` is one of the binary int instructions.
pub open spec fn is_int_binop(op: u8) -> bool {
    op == IADD || op == ISUB || op == IMUL || op == IDIV || op == IREM || op == IUSHR
}

/// `op` is a local-variable load or store that names its slot in the opcode.
pub open spec fn is_short_local(op: u8) -> bool {
    (ILOAD_0 <= op <= ILOAD_3) || (LLOAD_0 <= op <= LLOAD_3) || (ISTORE_0 <= op <= ISTORE_3) || (
    LSTORE_0 <= op <= LSTORE_3)
}

/// `op` is `goto`, `if<cond>` or `if_icmp<cond>`.
pub open spec fn is_branch(op: u8) -> bool {
    op == GOTO || (IFEQ <= op <= IF_ICMPLE)
}

/// The length in bytes of an instruction this dispatcher runs, opcode
/// included; `None` for an opcode it does not run.
pub open spec fn instruction_width(op: u8) -> Option<int> {
    if op == LCONST_0 || op == LCONST_1 || op == DASTORE || op == MONITORENTER || is_int_binop(op)
        || (ICONST_M1 <= op <= ICONST_5) || is_short_local(op) {
        Some(1)
    } else if op == BIPUSH || op == ILOAD || op == LLOAD || op == ISTORE || op == LSTORE {
        Some(2)
    } else if op == GETSTATIC || op == PUTSTATIC || op == NEW || op == SIPUSH || op == IINC {
        Some(3)
    } else {
        None
    }
}

/// The slot an instruction of the local-variable family names, and its width.
pub open spec fn local_slot(op: u8, code: Seq<u8>, pc: int) -> Option<(int, int)> {
    if ILOAD_0 <= op <= ILOAD_3 {
        Some(((op - ILOAD_0) as int, 1))
    } else if LLOAD_0 <= op <= LLOAD_3 {
        Some(((op - LLOAD_0) as int, 1))
    } else if ISTORE_0 <= op <= ISTORE_3 {
        Some(((op - ISTORE_0) as int, 1))
    } else if LSTORE_0 <= op <= LSTORE_3 {
        Some(((op - LSTORE_0) as int, 1))
    } else if op == ILOAD || op == LLOAD || op == ISTORE || op == LSTORE {
        if pc + 1 < code.len() {
            Some((code[pc + 1] as int, 2))
        } else {
            None
        }
    } else if op == IINC {
        if pc + 2 < code.len() {
            Some((code[pc + 1] as int, 3))
        } else {
            None
        }
    } else {
        None
    }
}

/// The operand stack, the locals and the next program counter (or the trap)
/// that a local-variable instruction at the frame's counter gives; `None`
/// for other instructions and for a missing operand.
pub open spec fn local_effect(f: Frame) -> Option<(Seq<VmValue>, Seq<VmValue>, Result<int, Trap>)> {
    let op = f.code@[f.pc as int];
    let pc = f.pc as int;
    let s = f.stack@;
    let l = f.locals@;
    match local_slot(op, f.code@, pc) {
        None => None,
        Some((i, w)) => if pc + w > u16::MAX {
            Some((s, l, Err(Trap::Bug(VmError::PcOutOfRange))))
        } else if (ILOAD_0 <= op <= ILOAD_3) || op == ILOAD {
            match local_int(l, i) {
                Some(v) => if s.len() < f.max_stack {
                    Some((s.push(VmValue::Int(v)), l, Ok(pc + w)))
                } else {
                    Some((s, l, Err(Trap::Bug(VmError::StackOverflow))))
                },
                None => Some((s, l, Err(Trap::Bug(if i < l.len() {
                    VmError::TypeMismatch
                } else {
                    VmError::LocalOutOfRange
                })))),
            }
        } else if (LLOAD_0 <= op <= LLOAD_3) || op == LLOAD {
            match local_long(l, i) {
                Some(v) => if s.len() + 2 <= f.max_stack {
                    Some((s.push(VmValue::Long(v)).push(VmValue::Top), l, Ok(pc + w)))
                } else {
                    Some((s, l, Err(Trap::Bug(VmError::StackOverflow))))
                },
                None => Some((s, l, Err(Trap::Bug(if i + 1 < l.len() {
                    VmError::TypeMismatch
                } else {
                    VmError::LocalOutOfRange
                })))),
            }
        } else if (ISTORE_0 <= op <= ISTORE_3) || op == ISTORE {
            if i >= l.len() {
                Some((s, l, Err(Trap::Bug(VmError::LocalOutOfRange))))
            } else {
                match top_int(s) {
                    Some(v) => Some((s.drop_last(), l.update(i, VmValue::Int(v)), Ok(pc + w))),
                    None => None,
                }
            }
        } else if (LSTORE_0 <= op <= LSTORE_3) || op == LSTORE {
            if i + 1 >= l.len() {
                Some((s, l, Err(Trap::Bug(VmError::LocalOutOfRange))))
            } else {
                match top_long(s) {
                    Some(v) => Some((s.drop_last().drop_last(), with_long(l, i, v), Ok(pc + w))),
                    None => None,
                }
            }
        } else {
            let delta = (#[verifier::truncate] (f.code@[pc + 2] as i8)) as i32;
            match local_int(l, i) {
                Some(v) => Some((s, l.update(i, VmValue::Int(v.wrapping_add(delta))), Ok(pc + w))),
                None => None,
            }
        },
    }
}

/// Runs a local-variable instruction of the running frame: decodes its slot
/// (and, for `iinc`, its increment) and returns the next program counter.
fn local_instruction(op: u8, pc: u16, frame: &mut Frame) -> (r: Result<u16, Trap>)
    requires
        pc == old(frame).pc,
        (pc as int) < old(frame).code@.len(),
        op == old(frame).code@[pc as int],
    ensures
        final(frame).max_stack == old(frame).max_stack,
        local_effect(*old(frame)) matches Some((st, lo, res)) ==> final(frame).stack@ == st
            && final(frame).locals@ == lo && match res {
            Ok(n) => r == Ok::<u16, Trap>(n as u16),
            Err(t) => r == Err::<u16, Trap>(t),
        },
        final(frame).code == old(frame).code,
        final(frame).pc == old(frame).pc,
        old(frame).wf() ==> final(frame).wf(),
        r matches Ok(next) ==> instruction_width(op) matches Some(w) && next == pc + w,
{
    let p = pc as usize;
    let short = (ILOAD_0 <= op && op <= ILOAD_3) || (LLOAD_0 <= op && op <= LLOAD_3) || (ISTORE_0
        <= op && op <= ISTORE_3) || (LSTORE_0 <= op && op <= LSTORE_3);
    let width: u16 = if short {
        1
    } else if op == IINC {
        3
    } else {
        2
    };
    if pc > u16::MAX - width || (width > 1 && p + (width as usize) > frame.code.len()) {
        return Err(Trap::Bug(VmError::PcOutOfRange));
    }
    let r = if ILOAD_0 <= op && op <= ILOAD_3 {
        locals::iload((op - ILOAD_0) as usize, frame)
    } else if LLOAD_0 <= op && op <= LLOAD_3 {
        locals::lload((op - LLOAD_0) as usize, frame)
    } else if ISTORE_0 <= op && op <= ISTORE_3 {
        locals::istore((op - ISTORE_0) as usize, frame)
    } else if LSTORE_0 <= op && op <= LSTORE_3 {
        locals::lstore((op - LSTORE_0) as usize, frame)
    } else if op == IINC {
        let index = frame.code[p + 1] as usize;
        let delta = (#[verifier::truncate] (frame.code[p + 2] as i8)) as i32;
        locals::iinc(index, delta, frame)
    } else {
        let index = frame.code[p + 1] as usize;
        if op == ILOAD {
            locals::iload(index, frame)
        } else if op == LLOAD {
            locals::lload(index, frame)
        } else if op == ISTORE {
            locals::istore(index, frame)
        } else if op == LSTORE {
            locals::lstore(index, frame)
        } else {
            Err(Trap::Bug(VmError::UnknownOpcode(op)))
        }
    };
    match r {
        Ok(()) => Ok(pc + width),
        Err(t) => Err(t),
    }
}

/// The frame's program counter is on a `return` instruction.
pub open spec fn is_return(f: Frame) -> bool {
    (f.pc as int) < f.code@.len() && f.code@[f.pc as int] == RETURN
}

/// The frame's program counter is on an instruction that pushes or pops a
/// frame: a return or an invocation.
pub open spec fn changes_frames(f: Frame) -> bool {
    (f.pc as int) < f.code@.len() && (f.code@[f.pc as int] == RETURN || f.code@[f.pc as int]
        == IRETURN || f.code@[f.pc as int] == INVOKESTATIC)
}

/// The operand stack and the next program counter (or the trap) that a
/// `lconst`, int push or binary int instruction at the frame's counter
/// gives; `None` for any other instruction, or where the instruction's
/// operands are missing.
pub open spec fn simple_effect(f: Frame) -> Option<(Seq<VmValue>, Result<int, Trap>)> {
    let op = f.code@[f.pc as int];
    let pc = f.pc as int;
    let s = f.stack@;
    if op == LCONST_0 || op == LCONST_1 {
        let v: i64 = if op == LCONST_0 {
            0
        } else {
            1
        };
        Some(
            if pc + 1 > u16::MAX {
                (s, Err(Trap::Bug(VmError::PcOutOfRange)))
            } else if s.len() + 2 > f.max_stack {
                (s, Err(Trap::Bug(VmError::StackOverflow)))
            } else {
                (s.push(VmValue::Long(v)).push(VmValue::Top), Ok(pc + 1))
            },
        )
    } else if is_int_binop(op) {
        match (top_int(s), top_int(s.drop_last())) {
            (Some(b), Some(a)) => match int_binop(op, a, b) {
                Some(Ok(v)) => Some(
                    (
                        s.drop_last().drop_last().push(VmValue::Int(v)),
                        if pc < u16::MAX {
                            Ok(pc + 1)
                        } else {
                            Err(Trap::Bug(VmError::PcOutOfRange))
                        },
                    ),
                ),
                Some(Err(e)) => Some((s.drop_last().drop_last(), Err(Trap::Throw(e)))),
                None => None,
            },
            _ => None,
        }
    } else {
        match pushed_int(op, f.code@, pc) {
            Some((v, w)) => Some(
                if pc + w > u16::MAX {
                    (s, Err(Trap::Bug(VmError::PcOutOfRange)))
                } else if s.len() >= f.max_stack {
                    (s, Err(Trap::Bug(VmError::StackOverflow)))
                } else {
                    (s.push(VmValue::Int(v)), Ok(pc + w))
                },
            ),
            None => None,
        }
    }
}

/// Runs the instruction at the running frame's program counter. `return`
/// pops the frame. Any other instruction leaves the frame in place and, on
/// success, moves the counter past itself, by the instruction's width; the
/// running frame stays within its bounds and the other frames are untouched.
pub fn step(vm: &mut Vm, class: &JvmClass, thread: &mut VmThread) -> (r: Result<(), Trap>)
    ensures
        old(thread).frame_stack@.len() > 0 && old(thread).frame_stack@.last().wf() ==> ({
            let f = old(thread).frame_stack@.last();
            let g = final(thread).frame_stack@.last();
            let op = f.code@[f.pc as int];
            let eff = if op == GETSTATIC {
                getstatic_effect(old(vm), class, f.code@, f.stack@, f.max_stack, f.pc as int)
            } else if op == MONITORENTER {
                monitorenter_effect(f.stack@, f.pc as int)
            } else if op == NEW {
                new_effect(old(vm), class, f.code@, f.stack@, f.max_stack, f.pc as int)
            } else if op == PUTSTATIC {
                putstatic_effect(old(vm), class, f.code@, f.stack@, f.pc as int)
            } else if op == DASTORE {
                dastore_effect(&old(vm).heap, f.stack@, f.pc as int)
            } else {
                None
            };
            match eff {
                None => true,
                Some((st, res)) => {
                    &&& final(thread).frame_stack@.len() == old(thread).frame_stack@.len()
                    &&& g.stack@ == st
                    &&& g.locals == f.locals
                    &&& match res {
                        Ok(t) => if t < f.code@.len() {
                            r is Ok && g.pc == t
                        } else {
                            r == Err::<(), Trap>(Trap::Bug(VmError::PcOutOfRange)) && g.pc == f.pc
                        },
                        Err(x) => r == Err::<(), Trap>(x) && g.pc == f.pc,
                    }
                },
            }
        }),
        old(thread).frame_stack@.len() > 0 && old(thread).frame_stack@.last().wf() ==> ({
            let f = old(thread).frame_stack@.last();
            let g = final(thread).frame_stack@.last();
            match branch_effect(f.code@[f.pc as int], f.code@, f.stack@, f.pc as int) {
                None => true,
                Some((st, res)) => {
                    &&& final(thread).frame_stack@.len() == old(thread).frame_stack@.len()
                    &&& g.stack@ == st
                    &&& g.locals == f.locals
                    &&& match res {
                        Ok(t) => r is Ok && g.pc == t,
                        Err(x) => r == Err::<(), Trap>(x) && g.pc == f.pc,
                    }
                },
            }
        }),
        old(thread).frame_stack@.len() > 0 && old(thread).frame_stack@.last().wf() ==> match local_effect(
            old(thread).frame_stack@.last(),
        ) {
            None => true,
            Some((st, lo, res)) => {
                let f = old(thread).frame_stack@.last();
                let g = final(thread).frame_stack@.last();
                &&& final(thread).frame_stack@.len() == old(thread).frame_stack@.len()
                &&& g.stack@ == st
                &&& g.locals@ == lo
                &&& match res {
                    Ok(next) => if next < f.code@.len() {
                        r is Ok && g.pc == next
                    } else {
                        r == Err::<(), Trap>(Trap::Bug(VmError::PcOutOfRange)) && g.pc == f.pc
                    },
                    Err(t) => r == Err::<(), Trap>(t) && g.pc == f.pc,
                }
            },
        },
        old(thread).frame_stack@.len() > 0 && old(thread).frame_stack@.last().wf() ==> match simple_effect(
            old(thread).frame_stack@.last(),
        ) {
            None => true,
            Some((st, res)) => {
                let f = old(thread).frame_stack@.last();
                let g = final(thread).frame_stack@.last();
                &&& final(thread).frame_stack@.len() == old(thread).frame_stack@.len()
                &&& g.stack@ == st
                &&& g.locals == f.locals
                &&& match res {
                    Ok(next) => if next < f.code@.len() {
                        r is Ok && g.pc == next
                    } else {
                        r == Err::<(), Trap>(Trap::Bug(VmError::PcOutOfRange)) && g.pc == f.pc
                    },
                    Err(t) => r == Err::<(), Trap>(t) && g.pc == f.pc,
                }
            },
        },
        old(thread).frame_stack@.len() > 0 && is_return(old(thread).frame_stack@.last()) ==> r
            is Ok && final(thread).frame_stack@ == old(thread).frame_stack@.drop_last(),
        old(thread).frame_stack@.len() == 0 ==> r == Err::<(), Trap>(
            Trap::Bug(VmError::StackUnderflow),
        ),
        old(thread).frame_stack@.len() > 0 && changes_frames(old(thread).frame_stack@.last()) ==> ({
            let f = old(thread).frame_stack@.last();
            let op = f.code@[f.pc as int];
            &&& forall|k: int|
                0 <= k < old(thread).frame_stack@.len() - 2 ==> final(thread).frame_stack@[k]
                    == old(thread).frame_stack@[k]
            &&& op == INVOKESTATIC ==> (r is Ok ==> final(thread).frame_stack@.len() == old(
                thread
            ).frame_stack@.len() + 1 && final(thread).frame_stack@.last().wf())
            &&& op == INVOKESTATIC ==> match invoke_target(class, f, f.pc as int) {
                None => r is Err && final(thread).frame_stack@ == old(thread).frame_stack@,
                Some((c, k)) => {
                    let n = old(thread).frame_stack@.len();
                    let s = f.stack@;
                    let callee = final(thread).frame_stack@[n as int];
                    &&& r is Ok
                    &&& final(thread).frame_stack@[n - 1].stack@ == s.subrange(0, s.len() - k)
                    &&& final(thread).frame_stack@[n - 1].pc == f.pc + 3
                    &&& callee.pc == 0
                    &&& callee.code@ == c.code@
                    &&& callee.locals@.subrange(0, k) == s.subrange(s.len() - k, s.len() as int)
                },
            }
            &&& (op == IRETURN && old(thread).frame_stack@.len() >= 2) ==> match top_int(f.stack@) {
                None => r is Err && final(thread).frame_stack@ == old(thread).frame_stack@,
                Some(v) => {
                    let n = old(thread).frame_stack@.len();
                    let c = old(thread).frame_stack@[n - 2];
                    c.stack@.len() < c.max_stack ==> r is Ok && final(thread).frame_stack@.len()
                        == n - 1 && final(thread).frame_stack@[n - 2].stack@ == c.stack@.push(
                        VmValue::Int(v),
                    ) && final(thread).frame_stack@[n - 2].pc == c.pc
                },
            }
            &&& op == INVOKESTATIC ==> (r is Err ==> final(thread).frame_stack@.len() == old(
                thread
            ).frame_stack@.len())
            &&& op == IRETURN ==> (r is Ok ==> final(thread).frame_stack@.len() == old(
                thread
            ).frame_stack@.len() - 1)
        }),
        old(thread).frame_stack@.len() > 0 && !changes_frames(old(thread).frame_stack@.last()) ==> ({
            let f = old(thread).frame_stack@.last();
            let g = final(thread).frame_stack@.last();
            &&& final(thread).frame_stack@.len() == old(thread).frame_stack@.len()
            &&& forall|k: int|
                0 <= k < old(thread).frame_stack@.len() - 1 ==> final(thread).frame_stack@[k]
                    == old(thread).frame_stack@[k]
            &&& f.wf() ==> g.wf()
            &&& g.code == f.code
            &&& f.wf() ==> (if is_branch(f.code@[f.pc as int]) {
                r is Ok ==> (g.pc as int) < g.code@.len()
            } else {
                match instruction_width(f.code@[f.pc as int]) {
                    None => r == Err::<(), Trap>(
                        Trap::Bug(VmError::UnknownOpcode(f.code@[f.pc as int])),
                    ),
                    Some(w) => r is Ok ==> g.pc == f.pc + w,
                }
            })
        }),
{
    let n = thread.frame_stack.len();
    if n == 0 {
        return Err(Trap::Bug(VmError::StackUnderflow));
    }
    let pc = thread.frame_stack[n - 1].pc;
    if pc as usize >= thread.frame_stack[n - 1].code.len() {
        return Err(Trap::Bug(VmError::PcOutOfRange));
    }
    let op = thread.frame_stack[n - 1].code[pc as usize];
    if op == RETURN {
        thread.frame_stack.pop();
        return Ok(());
    }
    if op == INVOKESTATIC {
        return invoke::invokestatic(class, thread, pc);
    }
    if op == IRETURN {
        return invoke::ireturn(thread);
    }
    let binop = op == IADD || op == ISUB || op == IMUL || op == IDIV || op == IREM || op == IUSHR;
    let push = (ICONST_M1 <= op && op <= ICONST_5) || op == BIPUSH || op == SIPUSH;
    let next = if op == LCONST_0 || op == LCONST_1 || op == GETSTATIC || op == PUTSTATIC || op
        == NEW || binop || push {
        let mut frame = match thread.frame_stack.pop() {
            Some(f) => f,
            None => return Err(Trap::Bug(VmError::StackUnderflow)),
        };
        let r = if op == GETSTATIC {
            let code = frame.code.clone();
            getstatic::eval(vm, class, &code, pc, &mut frame)
        } else if op == PUTSTATIC {
            let code = frame.code.clone();
            putstatic::eval(vm, class, &code, pc, &mut frame)
        } else if push {
            let code = frame.code.clone();
            ipush::eval(op, &code, pc, &mut frame)
        } else if op == NEW {
            let code = frame.code.clone();
            new::eval(vm, class, &code, pc, &mut frame)
        } else if binop {
            iarith::eval(op, pc, &mut frame)
        } else if op == LCONST_0 {
            lconst::eval(0, pc, &mut frame)
        } else {
            lconst::eval(1, pc, &mut frame)
        };
        thread.frame_stack.push(frame);
        r
    } else if (ILOAD_0 <= op && op <= ILOAD_3) || (LLOAD_0 <= op && op <= LLOAD_3) || (ISTORE_0
        <= op && op <= ISTORE_3) || (LSTORE_0 <= op && op <= LSTORE_3) || op == ILOAD || op
        == LLOAD || op == ISTORE || op == LSTORE || op == IINC {
        let mut frame = match thread.frame_stack.pop() {
            Some(f) => f,
            None => return Err(Trap::Bug(VmError::StackUnderflow)),
        };
        let r = local_instruction(op, pc, &mut frame);
        thread.frame_stack.push(frame);
        r
    } else if op == GOTO || (IFEQ <= op && op <= IF_ICMPLE) {
        let mut frame = match thread.frame_stack.pop() {
            Some(f) => f,
            None => return Err(Trap::Bug(VmError::StackUnderflow)),
        };
        let r = branch::eval(op, pc, &mut frame);
        thread.frame_stack.push(frame);
        r
    } else if op == DASTORE {
        dastore::eval(thread, &mut vm.heap, pc)
    } else if op == MONITORENTER {
        monitorenter::eval(thread, pc)
    } else {
        return Err(Trap::Bug(VmError::UnknownOpcode(op)));
    };
    let next = match next {
        Ok(p) => p,
        Err(t) => return Err(t),
    };
    let mut frame = match thread.frame_stack.pop() {
        Some(f) => f,
        None => return Err(Trap::Bug(VmError::StackUnderflow)),
    };
    let moved = frame.jump(next);
    thread.frame_stack.push(frame);
    match moved {
        Ok(()) => Ok(()),
        Err(e) => Err(Trap::Bug(e)),
    }
}

} // verus!
