use vstd::prelude::*;
use crate::value::{VmError, VmValue};

verus! {

/// One activation record: locals, a bounded operand stack, the method's
/// bytecode and the program counter.
pub struct Frame {
    pub locals: Vec<VmValue>,
    pub stack: Vec<VmValue>,
    pub max_stack: usize,
    pub code: Vec<u8>,
    pub pc: u16,
}

/// The long held at local `i`: a `Long` followed by its `Top` half.
pub open spec fn local_long(locals: Seq<VmValue>, i: int) -> Option<i64> {
    if 0 <= i && i + 1 < locals.len() && locals[i + 1] is Top {
        match locals[i] {
            VmValue::Long(v) => Some(v),
            _ => None,
        }
    } else {
        None
    }
}

/// The int held at local `i`.
pub open spec fn local_int(locals: Seq<VmValue>, i: int) -> Option<i32> {
    if 0 <= i < locals.len() {
        match locals[i] {
            VmValue::Int(v) => Some(v),
            _ => None,
        }
    } else {
        None
    }
}

/// The locals after a long has been stored at `i`.
pub open spec fn with_long(locals: Seq<VmValue>, i: int, v: i64) -> Seq<VmValue> {
    locals.update(i, VmValue::Long(v)).update(i + 1, VmValue::Top)
}

/// The double on top of a stack: its `Top` half above a `Double`.
pub open spec fn top_double(stack: Seq<VmValue>) -> Option<u64> {
    if stack.len() >= 2 && stack.last() is Top {
        match stack[stack.len() - 2] {
            VmValue::Double(v) => Some(v),
            _ => None,
        }
    } else {
        None
    }
}

/// The long on top of a stack: its `Top` half above a `Long`.
pub open spec fn top_long(stack: Seq<VmValue>) -> Option<i64> {
    if stack.len() >= 2 && stack.last() is Top {
        match stack[stack.len() - 2] {
            VmValue::Long(v) => Some(v),
            _ => None,
        }
    } else {
        None
    }
}

/// The int on top of a stack.
pub open spec fn top_int(stack: Seq<VmValue>) -> Option<i32> {
    if stack.len() >= 1 {
        match stack.last() {
            VmValue::Int(v) => Some(v),
            _ => None,
        }
    } else {
        None
    }
}

/// The reference on top of a stack: `Some(None)` for null.
pub open spec fn top_reference(stack: Seq<VmValue>) -> Option<Option<usize>> {
    if stack.len() >= 1 {
        match stack.last() {
            VmValue::Null => Some(None),
            VmValue::Reference(h) => Some(Some(h)),
            _ => None,
        }
    } else {
        None
    }
}

/// Number of slots a value takes: two for a long or a double, else one.
pub open spec fn slots(v: VmValue) -> nat {
    match v {
        VmValue::Long(_) => 2,
        VmValue::Double(_) => 2,
        _ => 1,
    }
}

/// A stack after pushing `v` with as many slots as its category asks.
pub open spec fn pushed(stack: Seq<VmValue>, v: VmValue) -> Seq<VmValue> {
    if slots(v) == 2 {
        stack.push(v).push(VmValue::Top)
    } else {
        stack.push(v)
    }
}

impl Frame {
    /// The frame is in a state that execution can reach: the program counter
    /// lies inside the code and the operand stack within its bound.
    pub open spec fn wf(&self) -> bool {
        (self.pc as int) < self.code@.len() && self.stack@.len() <= self.max_stack
    }

    /// A frame at the start of a method: every local unset, an empty stack.
    pub fn new(max_locals: usize, max_stack: usize, code: Vec<u8>) -> (r: Frame)
        requires
            code@.len() > 0,
        ensures
            r.wf(),
            r.pc == 0,
            r.code == code,
            r.max_stack == max_stack,
            r.stack@.len() == 0,
            r.locals@ == Seq::new(max_locals as nat, |k: int| VmValue::Top),
    {
        let mut locals: Vec<VmValue> = Vec::new();
        let mut k: usize = 0;
        while k < max_locals
            invariant
                k <= max_locals,
                locals@ == Seq::new(k as nat, |m: int| VmValue::Top),
            decreases max_locals - k,
        {
            locals.push(VmValue::Top);
            k = k + 1;
        }
        Frame { locals, stack: Vec::new(), max_stack, code, pc: 0 }
    }

    /// Pushes a category-1 value.
    pub fn stack_push(&mut self, v: VmValue) -> (r: Result<(), VmError>)
        ensures
            final(self).max_stack == old(self).max_stack,
            final(self).code == old(self).code,
            final(self).pc == old(self).pc,
            final(self).locals == old(self).locals,
            old(self).wf() ==> final(self).wf(),
            old(self).stack@.len() < old(self).max_stack ==> r is Ok && final(self).stack@ == old(self).stack@.push(v),
            old(self).stack@.len() >= old(self).max_stack ==> r == Err::<(), VmError>(
                VmError::StackOverflow,
            ) && final(self).stack == old(self).stack,
    {
        if self.stack.len() < self.max_stack {
            self.stack.push(v);
            Ok(())
        } else {
            Err(VmError::StackOverflow)
        }
    }

    /// Pushes any value: a long or a double as two slots, anything else as one.
    pub fn stack_push_value(&mut self, v: VmValue) -> (r: Result<(), VmError>)
        ensures
            final(self).max_stack == old(self).max_stack,
            final(self).code == old(self).code,
            final(self).pc == old(self).pc,
            final(self).locals == old(self).locals,
            old(self).wf() ==> final(self).wf(),
            old(self).stack@.len() + slots(v) <= old(self).max_stack ==> r is Ok
                && final(self).stack@ == pushed(old(self).stack@, v),
            old(self).stack@.len() + slots(v) > old(self).max_stack ==> r == Err::<(), VmError>(
                VmError::StackOverflow,
            ) && final(self).stack == old(self).stack,
    {
        match v {
            VmValue::Long(x) => self.stack_push_long(x),
            VmValue::Double(x) => self.stack_push_double(x),
            _ => self.stack_push(v),
        }
    }

    /// Pushes a long as its two slots.
    pub fn stack_push_long(&mut self, v: i64) -> (r: Result<(), VmError>)
        ensures
            final(self).max_stack == old(self).max_stack,
            final(self).code == old(self).code,
            final(self).pc == old(self).pc,
            final(self).locals == old(self).locals,
            old(self).wf() ==> final(self).wf(),
            old(self).stack@.len() + 2 <= old(self).max_stack ==> r is Ok && final(self).stack@
                == old(self).stack@.push(VmValue::Long(v)).push(VmValue::Top),
            old(self).stack@.len() + 2 > old(self).max_stack ==> r == Err::<(), VmError>(
                VmError::StackOverflow,
            ) && final(self).stack == old(self).stack,
    {
        if self.stack.len() < self.max_stack && self.max_stack - self.stack.len() >= 2 {
            self.stack.push(VmValue::Long(v));
            self.stack.push(VmValue::Top);
            Ok(())
        } else {
            Err(VmError::StackOverflow)
        }
    }

    /// Pushes a double, given by its bits, as its two slots.
    pub fn stack_push_double(&mut self, v: u64) -> (r: Result<(), VmError>)
        ensures
            final(self).max_stack == old(self).max_stack,
            final(self).code == old(self).code,
            final(self).pc == old(self).pc,
            final(self).locals == old(self).locals,
            old(self).wf() ==> final(self).wf(),
            old(self).stack@.len() + 2 <= old(self).max_stack ==> r is Ok && final(self).stack@
                == old(self).stack@.push(VmValue::Double(v)).push(VmValue::Top),
            old(self).stack@.len() + 2 > old(self).max_stack ==> r == Err::<(), VmError>(
                VmError::StackOverflow,
            ) && final(self).stack == old(self).stack,
    {
        if self.stack.len() < self.max_stack && self.max_stack - self.stack.len() >= 2 {
            self.stack.push(VmValue::Double(v));
            self.stack.push(VmValue::Top);
            Ok(())
        } else {
            Err(VmError::StackOverflow)
        }
    }

    /// Pops an int; fails, leaving the stack as it was, unless one is on top.
    pub fn stack_pop_int(&mut self) -> (r: Result<i32, VmError>)
        ensures
            final(self).max_stack == old(self).max_stack,
            final(self).code == old(self).code,
            final(self).pc == old(self).pc,
            final(self).locals == old(self).locals,
            old(self).wf() ==> final(self).wf(),
            match top_int(old(self).stack@) {
                Some(v) => r == Ok::<i32, VmError>(v) && final(self).stack@ == old(self).stack@.drop_last(),
                None => r is Err && final(self).stack == old(self).stack,
            },
    {
        let n = self.stack.len();
        if n == 0 {
            return Err(VmError::StackUnderflow);
        }
        match self.stack[n - 1] {
            VmValue::Int(v) => {
                self.stack.pop();
                Ok(v)
            },
            _ => Err(VmError::TypeMismatch),
        }
    }

    /// Pops a reference (`None` for null); fails, leaving the stack as it was,
    /// unless one is on top.
    pub fn stack_pop_reference(&mut self) -> (r: Result<Option<usize>, VmError>)
        ensures
            final(self).max_stack == old(self).max_stack,
            final(self).code == old(self).code,
            final(self).pc == old(self).pc,
            final(self).locals == old(self).locals,
            old(self).wf() ==> final(self).wf(),
            match top_reference(old(self).stack@) {
                Some(v) => r == Ok::<Option<usize>, VmError>(v) && final(self).stack@ == old(self).stack@.drop_last(),
                None => r is Err && final(self).stack == old(self).stack,
            },
    {
        let n = self.stack.len();
        if n == 0 {
            return Err(VmError::StackUnderflow);
        }
        match self.stack[n - 1] {
            VmValue::Null => {
                self.stack.pop();
                Ok(None)
            },
            VmValue::Reference(h) => {
                self.stack.pop();
                Ok(Some(h))
            },
            _ => Err(VmError::TypeMismatch),
        }
    }

    /// Pops a double's two slots; fails, leaving the stack as it was, unless
    /// one is on top.
    pub fn stack_pop_double(&mut self) -> (r: Result<u64, VmError>)
        ensures
            final(self).max_stack == old(self).max_stack,
            final(self).code == old(self).code,
            final(self).pc == old(self).pc,
            final(self).locals == old(self).locals,
            old(self).wf() ==> final(self).wf(),
            match top_double(old(self).stack@) {
                Some(v) => r == Ok::<u64, VmError>(v) && final(self).stack@ == old(self).stack@.drop_last().drop_last(),
                None => r is Err && final(self).stack == old(self).stack,
            },
    {
        let n = self.stack.len();
        if n < 2 {
            return Err(VmError::StackUnderflow);
        }
        match (self.stack[n - 2], self.stack[n - 1]) {
            (VmValue::Double(v), VmValue::Top) => {
                self.stack.pop();
                self.stack.pop();
                Ok(v)
            },
            _ => Err(VmError::TypeMismatch),
        }
    }

    /// Pops a long's two slots; fails, leaving the stack as it was, unless
    /// one is on top.
    pub fn stack_pop_long(&mut self) -> (r: Result<i64, VmError>)
        ensures
            final(self).max_stack == old(self).max_stack,
            final(self).code == old(self).code,
            final(self).pc == old(self).pc,
            final(self).locals == old(self).locals,
            old(self).wf() ==> final(self).wf(),
            match top_long(old(self).stack@) {
                Some(v) => r == Ok::<i64, VmError>(v) && final(self).stack@ == old(self).stack@.drop_last().drop_last(),
                None => r is Err && final(self).stack == old(self).stack,
            },
    {
        let n = self.stack.len();
        if n < 2 {
            return Err(VmError::StackUnderflow);
        }
        match (self.stack[n - 2], self.stack[n - 1]) {
            (VmValue::Long(v), VmValue::Top) => {
                self.stack.pop();
                self.stack.pop();
                Ok(v)
            },
            _ => Err(VmError::TypeMismatch),
        }
    }

    /// Stores a long into locals `i` and `i + 1`.
    pub fn store_local_long(&mut self, i: usize, v: i64) -> (r: Result<(), VmError>)
        ensures
            final(self).max_stack == old(self).max_stack,
            final(self).code == old(self).code,
            final(self).pc == old(self).pc,
            final(self).stack == old(self).stack,
            old(self).wf() ==> final(self).wf(),
            i + 1 < old(self).locals@.len() ==> r is Ok && final(self).locals@ == with_long(
                old(self).locals@,
                i as int,
                v,
            ),
            i + 1 >= old(self).locals@.len() ==> r == Err::<(), VmError>(VmError::LocalOutOfRange)
                && final(self).locals == old(self).locals,
    {
        if i < self.locals.len() && self.locals.len() - i >= 2 {
            self.locals.set(i, VmValue::Long(v));
            self.locals.set(i + 1, VmValue::Top);
            Ok(())
        } else {
            Err(VmError::LocalOutOfRange)
        }
    }

    /// Stores an int into local `i`.
    pub fn store_local_int(&mut self, i: usize, v: i32) -> (r: Result<(), VmError>)
        ensures
            final(self).max_stack == old(self).max_stack,
            final(self).code == old(self).code,
            final(self).pc == old(self).pc,
            final(self).stack == old(self).stack,
            old(self).wf() ==> final(self).wf(),
            i < old(self).locals@.len() ==> r is Ok && final(self).locals@ == old(self).locals@.update(i as int, VmValue::Int(v)),
            i >= old(self).locals@.len() ==> r == Err::<(), VmError>(VmError::LocalOutOfRange)
                && final(self).locals == old(self).locals,
    {
        if i < self.locals.len() {
            self.locals.set(i, VmValue::Int(v));
            Ok(())
        } else {
            Err(VmError::LocalOutOfRange)
        }
    }

    /// Moves the program counter to `next`, which must lie inside the code.
    pub fn jump(&mut self, next: u16) -> (r: Result<(), VmError>)
        ensures
            final(self).locals == old(self).locals,
            final(self).stack == old(self).stack,
            final(self).code == old(self).code,
            final(self).max_stack == old(self).max_stack,
            (next as int) < old(self).code@.len() ==> r is Ok && final(self).pc == next,
            (next as int) >= old(self).code@.len() ==> r == Err::<(), VmError>(
                VmError::PcOutOfRange,
            ) && final(self).pc == old(self).pc,
            old(self).wf() ==> final(self).wf(),
    {
        if (next as usize) < self.code.len() {
            self.pc = next;
            Ok(())
        } else {
            Err(VmError::PcOutOfRange)
        }
    }

    /// Reads the long at locals `i` and `i + 1`.
    pub fn load_local_long(&self, i: usize) -> (r: Result<i64, VmError>)
        ensures
            match local_long(self.locals@, i as int) {
                Some(v) => r == Ok::<i64, VmError>(v),
                None => r == Err::<i64, VmError>(if i + 1 < self.locals@.len() {
                    VmError::TypeMismatch
                } else {
                    VmError::LocalOutOfRange
                }),
            },
    {
        if i >= self.locals.len() || self.locals.len() - i < 2 {
            return Err(VmError::LocalOutOfRange);
        }
        match (self.locals[i], self.locals[i + 1]) {
            (VmValue::Long(v), VmValue::Top) => Ok(v),
            _ => Err(VmError::TypeMismatch),
        }
    }

    /// Reads the int at local `i`.
    pub fn load_local_int(&self, i: usize) -> (r: Result<i32, VmError>)
        ensures
            match local_int(self.locals@, i as int) {
                Some(v) => r == Ok::<i32, VmError>(v),
                None => r == Err::<i32, VmError>(if (i as int) < self.locals@.len() {
                    VmError::TypeMismatch
                } else {
                    VmError::LocalOutOfRange
                }),
            },
    {
        if i >= self.locals.len() {
            return Err(VmError::LocalOutOfRange);
        }
        match self.locals[i] {
            VmValue::Int(v) => Ok(v),
            _ => Err(VmError::TypeMismatch),
        }
    }
}

/// A long stored at local `i` occupies `i` and `i + 1` as one pair: reading
/// it back as a long gives the value, and reading slot `i + 1` as an int
/// fails.
pub proof fn lemma_long_local_pair(locals: Seq<VmValue>, i: int, v: i64)
    requires
        0 <= i,
        i + 1 < locals.len(),
    ensures
        local_long(with_long(locals, i, v), i) == Some(v),
        local_int(with_long(locals, i, v), i + 1) is None,
{
}

} // verus!
