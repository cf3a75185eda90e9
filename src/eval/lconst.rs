use vstd::prelude::*;
use crate::frame::Frame;
use crate::value::{Trap, VmError, VmValue};

verus! {

/// `lconst_<val>`: pushes the long `val` and moves past the one-byte
/// instruction.
pub fn eval(val: i64, pc: u16, frame: &mut Frame) -> (r: Result<u16, Trap>)
    ensures
        final(frame).locals == old(frame).locals,
        final(frame).code == old(frame).code,
        final(frame).max_stack == old(frame).max_stack,
        final(frame).pc == old(frame).pc,
        old(frame).wf() ==> final(frame).wf(),
        (pc < u16::MAX && old(frame).stack@.len() + 2 <= old(frame).max_stack) ==> r == Ok::<
            u16,
            Trap,
        >((pc + 1) as u16) && final(frame).stack@ == old(frame).stack@.push(VmValue::Long(val)).push(
            VmValue::Top,
        ),
        pc == u16::MAX ==> r == Err::<u16, Trap>(Trap::Bug(VmError::PcOutOfRange)) && final(frame).stack == old(frame).stack,
        (pc < u16::MAX && old(frame).stack@.len() + 2 > old(frame).max_stack) ==> r == Err::<
            u16,
            Trap,
        >(Trap::Bug(VmError::StackOverflow)) && final(frame).stack == old(frame).stack,
{
    if pc == u16::MAX {
        return Err(Trap::Bug(VmError::PcOutOfRange));
    }
    match frame.stack_push_long(val) {
        Ok(()) => Ok(pc + 1),
        Err(e) => Err(Trap::Bug(e)),
    }
}

} // verus!
