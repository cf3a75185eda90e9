use vstd::prelude::*;
use crate::frame::{top_reference, Frame};
use crate::thread::VmThread;
use crate::value::{JavaException, Trap, VmError, VmValue};

verus! {

/// The operand stack and the next program counter (or the trap) that a
/// `monitorenter` at `pc` gives on stack `s`; `None` where no reference is
/// on top.
pub open spec fn monitorenter_effect(s: Seq<VmValue>, pc: int) -> Option<(Seq<VmValue>, Result<int, Trap>)> {
    match top_reference(s) {
        None => None,
        Some(None) => Some((s.drop_last(), Err(Trap::Throw(JavaException::NullPointer)))),
        Some(Some(_)) => Some(
            (
                s.drop_last(),
                if pc < u16::MAX {
                    Ok(pc + 1)
                } else {
                    Err(Trap::Bug(VmError::PcOutOfRange))
                },
            ),
        ),
    }
}

/// `monitorenter`: pops a reference. A null one raises
/// `NullPointerException`; otherwise, with a single thread, nothing more
/// happens and execution moves past the instruction.
pub fn eval(thread: &mut VmThread, pc: u16) -> (r: Result<u16, Trap>)
    ensures
        final(thread).frame_stack@.len() == old(thread).frame_stack@.len(),
        final(thread).name == old(thread).name,
        old(thread).frame_stack@.len() == 0 ==> r == Err::<u16, Trap>(
            Trap::Bug(VmError::StackUnderflow),
        ),
        old(thread).frame_stack@.len() > 0 ==> ({
            let f = old(thread).frame_stack@.last();
            let g = final(thread).frame_stack@.last();
            &&& g.locals == f.locals
            &&& g.code == f.code
            &&& g.pc == f.pc
            &&& g.max_stack == f.max_stack
            &&& f.wf() ==> g.wf()
            &&& forall|k: int|
                0 <= k < old(thread).frame_stack@.len() - 1 ==> final(thread).frame_stack@[k]
                    == old(thread).frame_stack@[k]
            &&& match top_reference(f.stack@) {
                None => r is Err && g.stack == f.stack,
                Some(None) => r == Err::<u16, Trap>(Trap::Throw(JavaException::NullPointer))
                    && g.stack@ == f.stack@.drop_last(),
                Some(Some(_)) => g.stack@ == f.stack@.drop_last() && if pc < u16::MAX {
                    r == Ok::<u16, Trap>((pc + 1) as u16)
                } else {
                    r == Err::<u16, Trap>(Trap::Bug(VmError::PcOutOfRange))
                },
            }
        }),
{
    let mut frame = match thread.frame_stack.pop() {
        Some(f) => f,
        None => return Err(Trap::Bug(VmError::StackUnderflow)),
    };
    let popped = frame.stack_pop_reference();
    thread.frame_stack.push(frame);
    match popped {
        Err(e) => Err(Trap::Bug(e)),
        Ok(None) => Err(Trap::Throw(JavaException::NullPointer)),
        Ok(Some(_)) => if pc < u16::MAX {
            Ok(pc + 1)
        } else {
            Err(Trap::Bug(VmError::PcOutOfRange))
        },
    }
}

} // verus!
