use vstd::prelude::*;
use crate::eval::getstatic::operand_index;
use crate::frame::{top_double, top_int, top_long, top_reference, Frame};
use crate::model::{ClassConstant, JvmClass, TypeSignature};
use crate::value::{JavaException, Trap, VmError, VmValue};
use crate::vm::{class_phase, static_value, InitPhase, Vm};

verus! {

/// An int narrowed to what a field of type `t` holds: booleans keep the low
/// bit, bytes and shorts are sign-extended from 8 and 16 bits, chars are
/// zero-extended from 16 bits.
pub open spec fn narrow(t: TypeSignature, v: i32) -> i32 {
    match t {
        TypeSignature::Boolean => v & 1,
        TypeSignature::Byte => (#[verifier::truncate] (v as i8)) as i32,
        TypeSignature::Short => (#[verifier::truncate] (v as i16)) as i32,
        TypeSignature::Char => (#[verifier::truncate] (v as u16)) as i32,
        _ => v,
    }
}

/// The value on top of a stack that a field of type `t` takes, and how many
/// slots it fills.
pub open spec fn top_for_type(stack: Seq<VmValue>, t: TypeSignature) -> Option<(VmValue, nat)> {
    match t {
        TypeSignature::Long => match top_long(stack) {
            Some(v) => Some((VmValue::Long(v), 2)),
            None => None,
        },
        TypeSignature::Double => match top_double(stack) {
            Some(v) => Some((VmValue::Double(v), 2)),
            None => None,
        },
        TypeSignature::Float => if stack.len() >= 1 && stack.last() is Float {
            Some((stack.last(), 1))
        } else {
            None
        },
        TypeSignature::Class(_) => match top_reference(stack) {
            Some(r) => Some((stack.last(), 1)),
            None => None,
        },
        TypeSignature::Array(_) => match top_reference(stack) {
            Some(r) => Some((stack.last(), 1)),
            None => None,
        },
        TypeSignature::Void => None,
        _ => match top_int(stack) {
            Some(v) => Some((VmValue::Int(narrow(t, v)), 1)),
            None => None,
        },
    }
}

fn pop_for_type(frame: &mut Frame, t: &TypeSignature) -> (r: Result<VmValue, VmError>)
    ensures
        final(frame).locals == old(frame).locals,
        final(frame).code == old(frame).code,
        final(frame).max_stack == old(frame).max_stack,
        final(frame).pc == old(frame).pc,
        match top_for_type(old(frame).stack@, *t) {
            Some((v, n)) => r == Ok::<VmValue, VmError>(v) && final(frame).stack@ == old(
                frame
            ).stack@.subrange(0, old(frame).stack@.len() - n),
            None => r is Err && final(frame).stack == old(frame).stack,
        },
{
    let ghost s = frame.stack@;
    match t {
        TypeSignature::Long => {
            let v = frame.stack_pop_long()?;
            assert(s.drop_last().drop_last() =~= s.subrange(0, s.len() - 2));
            Ok(VmValue::Long(v))
        },
        TypeSignature::Double => {
            let v = frame.stack_pop_double()?;
            assert(s.drop_last().drop_last() =~= s.subrange(0, s.len() - 2));
            Ok(VmValue::Double(v))
        },
        TypeSignature::Float => {
            let n = frame.stack.len();
            if n == 0 {
                return Err(VmError::StackUnderflow);
            }
            match frame.stack[n - 1] {
                VmValue::Float(x) => {
                    frame.stack.pop();
                    assert(s.drop_last() =~= s.subrange(0, s.len() - 1));
                    Ok(VmValue::Float(x))
                },
                _ => Err(VmError::TypeMismatch),
            }
        },
        TypeSignature::Class(_) | TypeSignature::Array(_) => {
            let r = frame.stack_pop_reference()?;
            assert(s.drop_last() =~= s.subrange(0, s.len() - 1));
            match r {
                Some(h) => Ok(VmValue::Reference(h)),
                None => Ok(VmValue::Null),
            }
        },
        TypeSignature::Void => Err(VmError::TypeMismatch),
        _ => {
            let v = frame.stack_pop_int()?;
            assert(s.drop_last() =~= s.subrange(0, s.len() - 1));
            let w = match t {
                TypeSignature::Boolean => v & 1,
                TypeSignature::Byte => (#[verifier::truncate] (v as i8)) as i32,
                TypeSignature::Short => (#[verifier::truncate] (v as i16)) as i32,
                TypeSignature::Char => (#[verifier::truncate] (v as u16)) as i32,
                _ => v,
            };
            Ok(VmValue::Int(w))
        },
    }
}

/// The operand stack and the next program counter (or the trap) that a
/// `putstatic` at `pc` gives; `None` where it asks for the owner's
/// initialization or the value on top does not suit the field.
pub open spec fn putstatic_effect(vm: &Vm, class: &JvmClass, code: Seq<u8>, s: Seq<VmValue>, pc: int) -> Option<(Seq<VmValue>, Result<int, Trap>)> {
    if pc + 2 >= code.len() || pc + 3 > u16::MAX {
        Some((s, Err(Trap::Bug(VmError::PcOutOfRange))))
    } else if operand_index(code, pc) >= class.constants@.len() {
        Some((s, Err(Trap::Bug(VmError::BadConstant))))
    } else {
        match class.constants@[operand_index(code, pc)] {
            ClassConstant::Fieldref(owner, field, t) => match class_phase(vm, owner@) {
                None => None,
                Some(InitPhase::Loaded) => None,
                Some(InitPhase::Erroneous) => Some(
                    (s, Err(Trap::Throw(JavaException::NoClassDefFound))),
                ),
                Some(_) => if static_value(vm, owner@, field@) is None {
                    Some((s, Err(Trap::Bug(VmError::MissingField))))
                } else {
                    match top_for_type(s, t) {
                        None => None,
                        Some((v, n)) => Some((s.subrange(0, s.len() - n), Ok(pc + 3))),
                    }
                },
            },
            _ => Some((s, Err(Trap::Bug(VmError::BadConstant)))),
        }
    }
}

/// `putstatic`: pops the value for the `Fieldref` that the two operand bytes
/// name, narrowed to the field's type, and stores it into that static field.
/// The owning class must be initialized first, as for `getstatic`; on any
/// failure nothing changes.
pub fn eval(vm: &mut Vm, class: &JvmClass, code: &Vec<u8>, pc: u16, frame: &mut Frame) -> (r: Result<
    u16,
    Trap,
>)
    ensures
        final(vm).heap == old(vm).heap,
        final(frame).locals == old(frame).locals,
        final(frame).code == old(frame).code,
        final(frame).max_stack == old(frame).max_stack,
        final(frame).pc == old(frame).pc,
        old(frame).wf() ==> final(frame).wf(),
        r is Err ==> final(frame).stack == old(frame).stack && final(vm).classes == old(vm).classes,
        (pc + 2 >= code@.len() || pc + 3 > u16::MAX) ==> r == Err::<u16, Trap>(
            Trap::Bug(VmError::PcOutOfRange),
        ),
        (pc + 2 < code@.len() && pc + 3 <= u16::MAX) ==> ({
            let idx = operand_index(code@, pc as int);
            if idx >= class.constants@.len() {
                r == Err::<u16, Trap>(Trap::Bug(VmError::BadConstant))
            } else {
                match class.constants@[idx] {
                    ClassConstant::Fieldref(owner, field, t) => match class_phase(old(vm), owner@) {
                        None => r matches Err(Trap::NeedsInitialization(n)) && n@ == owner@,
                        Some(InitPhase::Loaded) => r matches Err(Trap::NeedsInitialization(n))
                            && n@ == owner@,
                        Some(InitPhase::Erroneous) => r == Err::<u16, Trap>(
                            Trap::Throw(JavaException::NoClassDefFound),
                        ),
                        Some(_) => if static_value(old(vm), owner@, field@) is None {
                            r == Err::<u16, Trap>(Trap::Bug(VmError::MissingField))
                        } else {
                            match top_for_type(old(frame).stack@, t) {
                                None => r is Err,
                                Some((v, n)) => {
                                    &&& r == Ok::<u16, Trap>((pc + 3) as u16)
                                    &&& final(frame).stack@ == old(frame).stack@.subrange(
                                        0,
                                        old(frame).stack@.len() - n,
                                    )
                                    &&& static_value(final(vm), owner@, field@) == Some(v)
                                    &&& forall|c: Seq<char>|
                                        #[trigger] class_phase(final(vm), c) == class_phase(
                                            old(vm),
                                            c,
                                        )
                                },
                            }
                        },
                    },
                    _ => r == Err::<u16, Trap>(Trap::Bug(VmError::BadConstant)),
                }
            }
        }),
{
    let p = pc as usize;
    if p + 2 >= code.len() || pc > u16::MAX - 3 {
        return Err(Trap::Bug(VmError::PcOutOfRange));
    }
    let index = code[p + 1] as usize * 256 + code[p + 2] as usize;
    if index >= class.constants.len() {
        return Err(Trap::Bug(VmError::BadConstant));
    }
    match &class.constants[index] {
        ClassConstant::Fieldref(owner, field, t) => {
            let phase = match vm.class_index(owner) {
                Some(i) => vm.classes[i].phase,
                None => return Err(Trap::NeedsInitialization(owner.clone())),
            };
            match phase {
                InitPhase::Loaded => Err(Trap::NeedsInitialization(owner.clone())),
                InitPhase::Erroneous => Err(Trap::Throw(JavaException::NoClassDefFound)),
                _ => {
                    if vm.get_static(owner, field).is_none() {
                        return Err(Trap::Bug(VmError::MissingField));
                    }
                    let v = match pop_for_type(frame, t) {
                        Ok(v) => v,
                        Err(e) => return Err(Trap::Bug(e)),
                    };
                    vm.put_static(owner, field, v);
                    Ok(pc + 3)
                },
            }
        },
        _ => Err(Trap::Bug(VmError::BadConstant)),
    }
}

} // verus!
