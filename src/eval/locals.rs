use vstd::prelude::*;
use crate::frame::{local_int, local_long, top_int, top_long, with_long, Frame};
use crate::value::{Trap, VmError, VmValue};

verus! {

pub const ILOAD: u8 = 0x15;

pub const LLOAD: u8 = 0x16;

pub const ILOAD_0: u8 = 0x1a;

pub const ILOAD_3: u8 = 0x1d;

pub const LLOAD_0: u8 = 0x1e;

pub const LLOAD_3: u8 = 0x21;

pub const ISTORE: u8 = 0x36;

pub const LSTORE: u8 = 0x37;

pub const ISTORE_0: u8 = 0x3b;

pub const ISTORE_3: u8 = 0x3e;

pub const LSTORE_0: u8 = 0x3f;

pub const LSTORE_3: u8 = 0x42;

pub const IINC: u8 = 0x84;

/// `iload`: pushes the int in local `index`; anything else there is a fault.
pub fn iload(index: usize, frame: &mut Frame) -> (r: Result<(), Trap>)
    ensures
        final(frame).locals == old(frame).locals,
        final(frame).code == old(frame).code,
        final(frame).max_stack == old(frame).max_stack,
        final(frame).pc == old(frame).pc,
        old(frame).wf() ==> final(frame).wf(),
        r is Err ==> final(frame).stack == old(frame).stack,
        match local_int(old(frame).locals@, index as int) {
            None => r == Err::<(), Trap>(Trap::Bug(if (index as int) < old(frame).locals@.len() {
                VmError::TypeMismatch
            } else {
                VmError::LocalOutOfRange
            })),
            Some(v) => if old(frame).stack@.len() < old(frame).max_stack {
                r is Ok && final(frame).stack@ == old(frame).stack@.push(VmValue::Int(v))
            } else {
                r == Err::<(), Trap>(Trap::Bug(VmError::StackOverflow))
            },
        },
{
    let v = match frame.load_local_int(index) {
        Ok(v) => v,
        Err(e) => return Err(Trap::Bug(e)),
    };
    match frame.stack_push(VmValue::Int(v)) {
        Ok(()) => Ok(()),
        Err(e) => Err(Trap::Bug(e)),
    }
}

/// `lload`: pushes the long held in locals `index` and `index + 1`.
pub fn lload(index: usize, frame: &mut Frame) -> (r: Result<(), Trap>)
    ensures
        final(frame).locals == old(frame).locals,
        final(frame).code == old(frame).code,
        final(frame).max_stack == old(frame).max_stack,
        final(frame).pc == old(frame).pc,
        old(frame).wf() ==> final(frame).wf(),
        r is Err ==> final(frame).stack == old(frame).stack,
        match local_long(old(frame).locals@, index as int) {
            None => r == Err::<(), Trap>(Trap::Bug(if index + 1 < old(frame).locals@.len() {
                VmError::TypeMismatch
            } else {
                VmError::LocalOutOfRange
            })),
            Some(v) => if old(frame).stack@.len() + 2 <= old(frame).max_stack {
                r is Ok && final(frame).stack@ == old(frame).stack@.push(VmValue::Long(v)).push(
                    VmValue::Top,
                )
            } else {
                r == Err::<(), Trap>(Trap::Bug(VmError::StackOverflow))
            },
        },
{
    let v = match frame.load_local_long(index) {
        Ok(v) => v,
        Err(e) => return Err(Trap::Bug(e)),
    };
    match frame.stack_push_long(v) {
        Ok(()) => Ok(()),
        Err(e) => Err(Trap::Bug(e)),
    }
}

/// `istore`: pops an int into local `index`; nothing changes on failure.
pub fn istore(index: usize, frame: &mut Frame) -> (r: Result<(), Trap>)
    ensures
        final(frame).code == old(frame).code,
        final(frame).max_stack == old(frame).max_stack,
        final(frame).pc == old(frame).pc,
        old(frame).wf() ==> final(frame).wf(),
        r is Err ==> final(frame).stack == old(frame).stack && final(frame).locals == old(
            frame
        ).locals,
        index >= old(frame).locals@.len() ==> r == Err::<(), Trap>(
            Trap::Bug(VmError::LocalOutOfRange),
        ),
        match top_int(old(frame).stack@) {
            None => r is Err,
            Some(v) => index < old(frame).locals@.len() ==> r is Ok && final(frame).stack@ == old(
                frame
            ).stack@.drop_last() && final(frame).locals@ == old(frame).locals@.update(
                index as int,
                VmValue::Int(v),
            ),
        },
{
    if index >= frame.locals.len() {
        return Err(Trap::Bug(VmError::LocalOutOfRange));
    }
    let v = match frame.stack_pop_int() {
        Ok(v) => v,
        Err(e) => return Err(Trap::Bug(e)),
    };
    match frame.store_local_int(index, v) {
        Ok(()) => Ok(()),
        Err(e) => Err(Trap::Bug(e)),
    }
}

/// `lstore`: pops a long into locals `index` and `index + 1`, as one pair.
pub fn lstore(index: usize, frame: &mut Frame) -> (r: Result<(), Trap>)
    ensures
        final(frame).code == old(frame).code,
        final(frame).max_stack == old(frame).max_stack,
        final(frame).pc == old(frame).pc,
        old(frame).wf() ==> final(frame).wf(),
        r is Err ==> final(frame).stack == old(frame).stack && final(frame).locals == old(
            frame
        ).locals,
        index + 1 >= old(frame).locals@.len() ==> r == Err::<(), Trap>(
            Trap::Bug(VmError::LocalOutOfRange),
        ),
        match top_long(old(frame).stack@) {
            None => r is Err,
            Some(v) => index + 1 < old(frame).locals@.len() ==> r is Ok && final(frame).stack@
                == old(frame).stack@.drop_last().drop_last() && final(frame).locals@ == with_long(
                old(frame).locals@,
                index as int,
                v,
            ),
        },
{
    if index >= frame.locals.len() || frame.locals.len() - index < 2 {
        return Err(Trap::Bug(VmError::LocalOutOfRange));
    }
    let v = match frame.stack_pop_long() {
        Ok(v) => v,
        Err(e) => return Err(Trap::Bug(e)),
    };
    match frame.store_local_long(index, v) {
        Ok(()) => Ok(()),
        Err(e) => Err(Trap::Bug(e)),
    }
}

/// `iinc`: adds `delta` to the int in local `index`, wrapping.
pub fn iinc(index: usize, delta: i32, frame: &mut Frame) -> (r: Result<(), Trap>)
    ensures
        final(frame).stack == old(frame).stack,
        final(frame).code == old(frame).code,
        final(frame).max_stack == old(frame).max_stack,
        final(frame).pc == old(frame).pc,
        old(frame).wf() ==> final(frame).wf(),
        match local_int(old(frame).locals@, index as int) {
            None => r is Err && final(frame).locals == old(frame).locals,
            Some(v) => r is Ok && final(frame).locals@ == old(frame).locals@.update(
                index as int,
                VmValue::Int(v.wrapping_add(delta)),
            ),
        },
{
    let v = match frame.load_local_int(index) {
        Ok(v) => v,
        Err(e) => return Err(Trap::Bug(e)),
    };
    match frame.store_local_int(index, v.wrapping_add(delta)) {
        Ok(()) => Ok(()),
        Err(e) => Err(Trap::Bug(e)),
    }
}

} // verus!
