use vstd::prelude::*;
use crate::frame::{top_double, top_int, top_reference, Frame};
use crate::heap::Heap;
use crate::thread::VmThread;
use crate::value::{JavaException, Trap, VmError, VmValue};

verus! {

/// The operand stack and the next program counter (or the trap) that a
/// `dastore` at `pc` gives on stack `s`; `None` where the operands are
/// missing or the store fails.
pub open spec fn dastore_effect(heap: &Heap, s: Seq<VmValue>, pc: int) -> Option<(Seq<VmValue>, Result<int, Trap>)> {
    let s1 = s.drop_last().drop_last();
    let s2 = s1.drop_last();
    match (top_double(s), top_int(s1), top_reference(s2)) {
        (Some(v), Some(index), Some(Some(h))) => match heap.array_at(h as int) {
            Some((t, els)) => if t == Some(7u8) && 0 <= index < els.len() {
                Some(
                    (
                        s2.drop_last(),
                        if pc < u16::MAX {
                            Ok(pc + 1)
                        } else {
                            Err(Trap::Bug(VmError::PcOutOfRange))
                        },
                    ),
                )
            } else {
                None
            },
            None => None,
        },
        _ => None,
    }
}

/// `dastore`: pops a double, an index and an array reference, and writes
/// the double into the array. A null array raises `NullPointerException`,
/// an index outside it `ArrayIndexOutOfBoundsException`; an array that
/// does not hold doubles is a fault of the interpreter. On success the three
/// operands are gone and execution moves past the instruction.
pub fn eval(thread: &mut VmThread, heap: &mut Heap, pc: u16) -> (r: Result<u16, Trap>)
    ensures
        final(thread).frame_stack@.len() == old(thread).frame_stack@.len(),
        final(thread).name == old(thread).name,
        old(thread).frame_stack@.len() == 0 ==> r == Err::<u16, Trap>(
            Trap::Bug(VmError::StackUnderflow),
        ) && final(heap).objects@ == old(heap).objects@,
        old(thread).frame_stack@.len() > 0 ==> ({
            let f = old(thread).frame_stack@.last();
            let g = final(thread).frame_stack@.last();
            let s0 = f.stack@;
            let s1 = s0.drop_last().drop_last();
            let s2 = s1.drop_last();
            let s3 = s2.drop_last();
            &&& g.locals == f.locals
            &&& g.code == f.code
            &&& g.pc == f.pc
            &&& g.max_stack == f.max_stack
            &&& f.wf() ==> g.wf()
            &&& forall|k: int|
                0 <= k < old(thread).frame_stack@.len() - 1 ==> final(thread).frame_stack@[k]
                    == old(thread).frame_stack@[k]
            &&& match (top_double(s0), top_int(s1), top_reference(s2)) {
                (Some(v), Some(index), Some(None)) => r == Err::<u16, Trap>(
                    Trap::Throw(JavaException::NullPointer),
                ) && final(heap).objects@ == old(heap).objects@,
                (Some(v), Some(index), Some(Some(h))) => match old(heap).array_at(h as int) {
                    None => r == Err::<u16, Trap>(Trap::Bug(VmError::BadHeapReference)) && final(
                        heap
                    ).objects@ == old(heap).objects@,
                    Some((t, els)) => if t != Some(7u8) {
                        r == Err::<u16, Trap>(Trap::Bug(VmError::TypeMismatch)) && final(heap).objects@ == old(heap).objects@
                    } else if index < 0 || index >= els.len() {
                        r == Err::<u16, Trap>(Trap::Throw(JavaException::ArrayIndexOutOfBounds))
                            && final(heap).objects@ == old(heap).objects@
                    } else {
                        &&& g.stack@ == s3
                        &&& final(heap).objects@.len() == old(heap).objects@.len()
                        &&& forall|k: int|
                            0 <= k < old(heap).objects@.len() && k != h ==> final(heap).objects@[k] == old(heap).objects@[k]
                        &&& final(heap).array_at(h as int) == Some(
                            (t, els.update(index as int, VmValue::Double(v))),
                        )
                        &&& if pc < u16::MAX {
                            r == Ok::<u16, Trap>((pc + 1) as u16)
                        } else {
                            r == Err::<u16, Trap>(Trap::Bug(VmError::PcOutOfRange))
                        }
                    },
                },
                _ => r is Err && final(heap).objects@ == old(heap).objects@,
            }
        }),
{
    let mut frame = match thread.frame_stack.pop() {
        Some(f) => f,
        None => return Err(Trap::Bug(VmError::StackUnderflow)),
    };
    let ghost s0 = frame.stack@;
    let result = pop_operands(&mut frame);
    let result = match result {
        Err(e) => Err(e),
        Ok((value, index, None)) => Err(Trap::Throw(JavaException::NullPointer)),
        Ok((value, index, Some(h))) => match heap.array_store(h, 7, index, VmValue::Double(value)) {
            Err(e) => Err(e),
            Ok(()) => if pc < u16::MAX {
                Ok(pc + 1)
            } else {
                Err(Trap::Bug(VmError::PcOutOfRange))
            },
        },
    };
    thread.frame_stack.push(frame);
    result
}

/// Pops the double, the index and the array reference that `dastore` takes.
fn pop_operands(frame: &mut Frame) -> (r: Result<(u64, i32, Option<usize>), Trap>)
    ensures
        final(frame).locals == old(frame).locals,
        final(frame).code == old(frame).code,
        final(frame).pc == old(frame).pc,
        final(frame).max_stack == old(frame).max_stack,
        old(frame).wf() ==> final(frame).wf(),
        ({
            let s0 = old(frame).stack@;
            let s1 = s0.drop_last().drop_last();
            let s2 = s1.drop_last();
            match (top_double(s0), top_int(s1), top_reference(s2)) {
                (Some(v), Some(i), Some(a)) => r == Ok::<(u64, i32, Option<usize>), Trap>(
                    (v, i, a),
                ) && final(frame).stack@ == s2.drop_last(),
                _ => r is Err,
            }
        }),
{
    let value = match frame.stack_pop_double() {
        Ok(v) => v,
        Err(e) => return Err(Trap::Bug(e)),
    };
    let index = match frame.stack_pop_int() {
        Ok(i) => i,
        Err(e) => return Err(Trap::Bug(e)),
    };
    let array = match frame.stack_pop_reference() {
        Ok(a) => a,
        Err(e) => return Err(Trap::Bug(e)),
    };
    Ok((value, index, array))
}

} // verus!
