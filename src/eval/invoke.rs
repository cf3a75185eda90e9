use vstd::prelude::*;
use crate::descriptor::method_desc;
use crate::eval::getstatic::operand_index;
use crate::frame::{top_int, Frame};
use crate::model::{ClassAttribute, ClassConstant, ClassMethod, Code, JvmClass, MethodSignature, TypeSignature};
use crate::thread::VmThread;
use crate::value::{Trap, VmError, VmValue};

verus! {

pub const INVOKESTATIC: u8 = 0xb8;

pub const IRETURN: u8 = 0xac;

/// The operand-stack slots that a parameter list takes.
pub open spec fn param_slots(ps: Seq<TypeSignature>) -> int
    decreases ps.len(),
{
    if ps.len() == 0 {
        0
    } else {
        param_slots(ps.drop_last()) + match ps.last() {
            TypeSignature::Long => 2int,
            TypeSignature::Double => 2int,
            _ => 1int,
        }
    }
}

proof fn lemma_param_slots_take(ps: Seq<TypeSignature>, k: int)
    requires
        0 <= k <= ps.len(),
    ensures
        param_slots(ps.take(k)) <= param_slots(ps),
    decreases ps.len() - k,
{
    if k < ps.len() {
        lemma_param_slots_take(ps, k + 1);
        assert(ps.take(k + 1).drop_last() =~= ps.take(k));
    } else {
        assert(ps.take(k) =~= ps);
    }
}

/// The index of the first method named `name` whose descriptor is `d`,
/// searching from `k`.
pub open spec fn first_method(ms: Seq<ClassMethod>, name: Seq<char>, d: Seq<char>, k: int) -> Option<int>
    decreases ms.len() - k,
{
    if k < 0 || k >= ms.len() {
        None
    } else if ms[k].name@ == name && method_desc(ms[k].descriptor) == d {
        Some(k)
    } else {
        first_method(ms, name, d, k + 1)
    }
}

/// The first `Code` attribute in a list, searching from `k`.
pub open spec fn first_code(attrs: Seq<ClassAttribute>, k: int) -> Option<Code>
    decreases attrs.len() - k,
{
    if k < 0 || k >= attrs.len() {
        None
    } else {
        match attrs[k] {
            ClassAttribute::Code(c) => Some(c),
            _ => first_code(attrs, k + 1),
        }
    }
}

fn count_slots(ps: &Vec<TypeSignature>) -> (r: Option<usize>)
    ensures
        r matches Some(n) ==> n == param_slots(ps@),
        r is None ==> param_slots(ps@) > usize::MAX - 2,
{
    let mut n: usize = 0;
    let mut k: usize = 0;
    while k < ps.len()
        invariant
            k <= ps@.len(),
            n == param_slots(ps@.take(k as int)),
        decreases ps@.len() - k,
    {
        if n > usize::MAX - 2 {
            proof {
                lemma_param_slots_take(ps@, k as int);
            }
            return None;
        }
        proof {
            assert(ps@.take(k + 1).drop_last() =~= ps@.take(k as int));
        }
        n = match ps[k] {
            TypeSignature::Long => n + 2,
            TypeSignature::Double => n + 2,
            _ => n + 1,
        };
        k = k + 1;
    }
    assert(ps@.take(k as int) =~= ps@);
    Some(n)
}

/// Index of the first method of `class` with this name and signature.
pub fn find_method(class: &JvmClass, name: &String, sig: &MethodSignature) -> (r: Option<usize>)
    ensures
        r matches Some(i) ==> first_method(class.methods@, name@, method_desc(*sig), 0) == Some(
            i as int,
        ) && i < class.methods@.len(),
        r is None ==> first_method(class.methods@, name@, method_desc(*sig), 0) is None,
{
    let want = sig.to_descriptor();
    let mut k: usize = 0;
    while k < class.methods.len()
        invariant
            k <= class.methods@.len(),
            want@ == method_desc(*sig),
            first_method(class.methods@, name@, method_desc(*sig), 0) == first_method(
                class.methods@,
                name@,
                method_desc(*sig),
                k as int,
            ),
        decreases class.methods@.len() - k,
    {
        let m = &class.methods[k];
        if m.name == *name {
            let d = m.descriptor.to_descriptor();
            if d == want {
                return Some(k);
            }
        }
        k = k + 1;
    }
    None
}

/// The `Code` attribute of a method, if it has one.
pub fn code_of(m: &ClassMethod) -> (r: Option<&Code>)
    ensures
        r matches Some(c) ==> first_code(m.attributes@, 0) == Some(*c),
        r is None ==> first_code(m.attributes@, 0) is None,
{
    let mut k: usize = 0;
    while k < m.attributes.len()
        invariant
            k <= m.attributes@.len(),
            first_code(m.attributes@, 0) == first_code(m.attributes@, k as int),
        decreases m.attributes@.len() - k,
    {
        match &m.attributes[k] {
            ClassAttribute::Code(c) => return Some(c),
            _ => {},
        }
        k = k + 1;
    }
    None
}

/// What an `invokestatic` at `pc` of the caller enters: the `Code` of the
/// method of `class` that the `Methodref` names, and how many argument slots
/// it takes; `None` where the call cannot be made.
pub open spec fn invoke_target(class: &JvmClass, caller: Frame, pc: int) -> Option<(Code, int)> {
    let code = caller.code@;
    if pc + 3 < code.len() && pc + 3 <= u16::MAX && operand_index(code, pc)
        < class.constants@.len() {
        match class.constants@[operand_index(code, pc)] {
            ClassConstant::Methodref(o, nm, sig) => if o@ == class.this_class@ {
                match first_method(class.methods@, nm@, method_desc(sig), 0) {
                    Some(i) => match first_code(class.methods@[i].attributes@, 0) {
                        Some(c) => {
                            let k = param_slots(sig.parameters@);
                            if k <= usize::MAX - 2 && k <= caller.stack@.len() && k
                                <= c.max_locals && c.code@.len() > 0 {
                                Some((c, k))
                            } else {
                                None
                            }
                        },
                        None => None,
                    },
                    None => None,
                }
            } else {
                None
            },
            _ => None,
        }
    } else {
        None
    }
}

/// `invokestatic` of a method of `class` itself: pops the arguments from the
/// caller's stack into the first locals of a new frame for the method, moves
/// the caller past the instruction, and makes the new frame the running
/// one. A method of another class is left to the embedder.
pub fn invokestatic(class: &JvmClass, thread: &mut VmThread, pc: u16) -> (r: Result<(), Trap>)
    ensures
        forall|k: int|
            0 <= k < old(thread).frame_stack@.len() - 1 ==> final(thread).frame_stack@[k] == old(
                thread
            ).frame_stack@[k],
        old(thread).frame_stack@.len() == 0 ==> r is Err && final(thread).frame_stack@.len() == 0,
        old(thread).frame_stack@.len() > 0 ==> ({
            let fs = old(thread).frame_stack@;
            let n = fs.len();
            let caller = fs[n - 1];
            let s = caller.stack@;
            match invoke_target(class, caller, pc as int) {
                None => r is Err && final(thread).frame_stack@ == fs,
                Some((c, k)) => {
                    let g = final(thread).frame_stack@[n - 1];
                    let callee = final(thread).frame_stack@[n as int];
                    &&& r is Ok
                    &&& final(thread).frame_stack@.len() == n + 1
                    &&& g.stack@ == s.subrange(0, s.len() - k)
                    &&& g.pc == pc + 3
                    &&& g.locals == caller.locals
                    &&& g.code == caller.code
                    &&& g.max_stack == caller.max_stack
                    &&& callee.wf()
                    &&& callee.pc == 0
                    &&& callee.stack@.len() == 0
                    &&& callee.max_stack == c.max_stack as usize
                    &&& callee.locals@.len() == c.max_locals as usize
                    &&& callee.locals@.subrange(0, k) == s.subrange(s.len() - k, s.len() as int)
                    &&& callee.code@ == c.code@
                },
            }
        }),
{
    let mut caller = match thread.frame_stack.pop() {
        Some(f) => f,
        None => return Err(Trap::Bug(VmError::StackUnderflow)),
    };
    let r = enter(class, &mut caller, pc);
    thread.frame_stack.push(caller);
    match r {
        Ok(callee) => {
            thread.frame_stack.push(callee);
            Ok(())
        },
        Err(t) => Err(t),
    }
}

fn enter(class: &JvmClass, caller: &mut Frame, pc: u16) -> (r: Result<Frame, Trap>)
    ensures
        ({
            let s = old(caller).stack@;
            match invoke_target(class, *old(caller), pc as int) {
                None => r is Err && *final(caller) == *old(caller),
                Some((c, k)) => r matches Ok(callee) && final(caller).stack@ == s.subrange(
                    0,
                    s.len() - k,
                ) && final(caller).pc == pc + 3 && final(caller).locals == old(caller).locals
                    && final(caller).code == old(caller).code && final(caller).max_stack == old(
                    caller
                ).max_stack && callee.wf() && callee.pc == 0 && callee.stack@.len() == 0
                    && callee.max_stack == c.max_stack as usize && callee.locals@.len()
                    == c.max_locals as usize && callee.locals@.subrange(0, k) == s.subrange(
                    s.len() - k,
                    s.len() as int,
                ) && callee.code@ == c.code@,
            }
        }),
{
    let p = pc as usize;
    if p + 2 >= caller.code.len() || pc > u16::MAX - 3 {
        return Err(Trap::Bug(VmError::PcOutOfRange));
    }
    let index = caller.code[p + 1] as usize * 256 + caller.code[p + 2] as usize;
    if index >= class.constants.len() {
        return Err(Trap::Bug(VmError::BadConstant));
    }
    let (owner, name, sig) = match &class.constants[index] {
        ClassConstant::Methodref(o, n, s) => (o, n, s),
        _ => return Err(Trap::Bug(VmError::BadConstant)),
    };
    if *owner != class.this_class {
        return Err(Trap::Bug(VmError::ForeignMethod));
    }
    let i = match find_method(class, name, sig) {
        Some(i) => i,
        None => return Err(Trap::Bug(VmError::MissingMethod)),
    };
    let code = match code_of(&class.methods[i]) {
        Some(c) => c,
        None => return Err(Trap::Bug(VmError::MissingMethod)),
    };
    let slots = match count_slots(&sig.parameters) {
        Some(n) => n,
        None => return Err(Trap::Bug(VmError::LocalOutOfRange)),
    };
    let n = caller.stack.len();
    if n < slots {
        return Err(Trap::Bug(VmError::StackUnderflow));
    }
    if slots > code.max_locals as usize {
        return Err(Trap::Bug(VmError::LocalOutOfRange));
    }
    if code.code.len() == 0 || (pc + 3) as usize >= caller.code.len() {
        return Err(Trap::Bug(VmError::PcOutOfRange));
    }
    let body = code.code.clone();
    assert(body@ =~= code.code@);
    let mut callee = Frame::new(code.max_locals as usize, code.max_stack as usize, body);
    let ghost s0 = caller.stack@;
    let mut k: usize = 0;
    while k < slots
        invariant
            k <= slots,
            slots <= n,
            n == caller.stack@.len(),
            caller.stack@ == s0,
            callee.locals@.len() == code.max_locals as usize,
            slots <= callee.locals@.len(),
            callee.wf(),
            callee.pc == 0,
            callee.stack@.len() == 0,
            callee.max_stack == code.max_stack as usize,
            callee.code@ == code.code@,
            callee.locals@.subrange(0, k as int) == s0.subrange(n - slots, n - slots + k),
        decreases slots - k,
    {
        let v = caller.stack[n - slots + k];
        callee.locals.set(k, v);
        k = k + 1;
        assert(callee.locals@.subrange(0, k as int) =~= s0.subrange(n - slots, n - slots + k));
    }
    let mut m: usize = 0;
    while m < slots
        invariant
            m <= slots,
            slots <= n,
            n == s0.len(),
            caller.stack@ == s0.subrange(0, n - m),
            caller.code == old(caller).code,
            caller.pc == old(caller).pc,
            caller.locals == old(caller).locals,
            caller.max_stack == old(caller).max_stack,
        decreases slots - m,
    {
        caller.stack.pop();
        m = m + 1;
        assert(caller.stack@ =~= s0.subrange(0, n - m));
    }
    caller.pc = pc + 3;
    Ok(callee)
}

/// `ireturn`: pops the int result and the running frame, and pushes the
/// result onto the caller's stack; with no caller the result is dropped.
pub fn ireturn(thread: &mut VmThread) -> (r: Result<(), Trap>)
    ensures
        forall|k: int|
            0 <= k < old(thread).frame_stack@.len() - 2 ==> final(thread).frame_stack@[k] == old(
                thread
            ).frame_stack@[k],
        ({
            let fs = old(thread).frame_stack@;
            let n = fs.len();
            if n == 0 {
                r == Err::<(), Trap>(Trap::Bug(VmError::StackUnderflow)) && final(thread).frame_stack@
                    == fs
            } else {
                match top_int(fs[n - 1].stack@) {
                    None => r is Err && final(thread).frame_stack@ == fs,
                    Some(v) => if n == 1 {
                        r is Ok && final(thread).frame_stack@.len() == 0
                    } else if fs[n - 2].stack@.len() < fs[n - 2].max_stack {
                        let c = final(thread).frame_stack@[n - 2];
                        &&& r is Ok
                        &&& final(thread).frame_stack@.len() == n - 1
                        &&& forall|k: int| 0 <= k < n - 2 ==> final(thread).frame_stack@[k] == fs[k]
                        &&& c.stack@ == fs[n - 2].stack@.push(VmValue::Int(v))
                        &&& c.locals == fs[n - 2].locals
                        &&& c.code == fs[n - 2].code
                        &&& c.pc == fs[n - 2].pc
                        &&& c.max_stack == fs[n - 2].max_stack
                        &&& fs[n - 2].wf() ==> c.wf()
                    } else {
                        r == Err::<(), Trap>(Trap::Bug(VmError::StackOverflow))
                            && final(thread).frame_stack@.len() == n
                    },
                }
            }
        }),
{
    let mut callee = match thread.frame_stack.pop() {
        Some(f) => f,
        None => return Err(Trap::Bug(VmError::StackUnderflow)),
    };
    let v = match callee.stack_pop_int() {
        Ok(v) => v,
        Err(e) => {
            thread.frame_stack.push(callee);
            proof {
                assert(thread.frame_stack@ =~= old(thread).frame_stack@);
            }
            return Err(Trap::Bug(e));
        },
    };
    let mut caller = match thread.frame_stack.pop() {
        Some(f) => f,
        None => return Ok(()),
    };
    match caller.stack_push(VmValue::Int(v)) {
        Ok(()) => {
            thread.frame_stack.push(caller);
            Ok(())
        },
        Err(e) => {
            thread.frame_stack.push(caller);
            thread.frame_stack.push(callee);
            Err(Trap::Bug(e))
        },
    }
}

} // verus!
