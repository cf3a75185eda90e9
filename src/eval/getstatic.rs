use vstd::prelude::*;
use crate::frame::{pushed, slots, Frame};
use crate::model::{ClassConstant, JvmClass};
use crate::value::{JavaException, Trap, VmError, VmValue};
use crate::vm::{class_phase, static_value, InitPhase, Vm};

verus! {

/// The constant-pool index held, big-endian, in the two bytes after `pc`.
pub open spec fn operand_index(code: Seq<u8>, pc: int) -> int {
    code[pc + 1] as int * 256 + code[pc + 2] as int
}

/// The class that owns the field the `getstatic` at `pc` names.
pub open spec fn field_owner(class: &JvmClass, code: Seq<u8>, pc: int) -> Option<Seq<char>> {
    if pc + 2 < code.len() && 0 <= operand_index(code, pc) < class.constants@.len() {
        match class.constants@[operand_index(code, pc)] {
            ClassConstant::Fieldref(owner, _, _) => Some(owner@),
            _ => None,
        }
    } else {
        None
    }
}

/// The operand stack and the next program counter (or the trap) that a
/// `getstatic` at `pc` gives; `None` where it asks for the owner's
/// initialization.
pub open spec fn getstatic_effect(vm: &Vm, class: &JvmClass, code: Seq<u8>, s: Seq<VmValue>, max_stack: usize, pc: int) -> Option<(Seq<VmValue>, Result<int, Trap>)> {
    if pc + 2 >= code.len() || pc + 3 > u16::MAX {
        Some((s, Err(Trap::Bug(VmError::PcOutOfRange))))
    } else if operand_index(code, pc) >= class.constants@.len() {
        Some((s, Err(Trap::Bug(VmError::BadConstant))))
    } else {
        match class.constants@[operand_index(code, pc)] {
            ClassConstant::Fieldref(owner, field, _) => match class_phase(vm, owner@) {
                None => None,
                Some(InitPhase::Loaded) => None,
                Some(InitPhase::Erroneous) => Some(
                    (s, Err(Trap::Throw(JavaException::NoClassDefFound))),
                ),
                Some(_) => match static_value(vm, owner@, field@) {
                    None => Some((s, Err(Trap::Bug(VmError::MissingField)))),
                    Some(v) => if s.len() + slots(v) <= max_stack {
                        Some((pushed(s, v), Ok(pc + 3)))
                    } else {
                        Some((s, Err(Trap::Bug(VmError::StackOverflow))))
                    },
                },
            },
            _ => Some((s, Err(Trap::Bug(VmError::BadConstant)))),
        }
    }
}

/// `getstatic`: reads the `Fieldref` that the two operand bytes name, and
/// pushes the value of that static field. The owning class must be
/// initialized first: while it is not loaded or only loaded, the instruction
/// asks for its initialization and is to be retried; a class whose
/// initialization failed raises `NoClassDefFoundError`. A class that this
/// thread is initializing is read as it stands.
pub fn eval(vm: &Vm, class: &JvmClass, code: &Vec<u8>, pc: u16, frame: &mut Frame) -> (r: Result<
    u16,
    Trap,
>)
    ensures
        final(frame).locals == old(frame).locals,
        final(frame).code == old(frame).code,
        final(frame).max_stack == old(frame).max_stack,
        final(frame).pc == old(frame).pc,
        old(frame).wf() ==> final(frame).wf(),
        r is Err ==> final(frame).stack == old(frame).stack,
        getstatic_effect(vm, class, code@, old(frame).stack@, old(frame).max_stack, pc as int) matches Some((st, res))
            ==> final(frame).stack@ == st && match res {
            Ok(t) => r == Ok::<u16, Trap>(t as u16),
            Err(x) => r == Err::<u16, Trap>(x),
        },
        r is Ok ==> (field_owner(class, code@, pc as int) matches Some(o) && (class_phase(vm, o)
            == Some(InitPhase::Initialized) || class_phase(vm, o) == Some(
            InitPhase::Initializing,
        ))),
        (pc + 2 >= code@.len() || pc + 3 > u16::MAX) ==> r == Err::<u16, Trap>(
            Trap::Bug(VmError::PcOutOfRange),
        ),
        (pc + 2 < code@.len() && pc + 3 <= u16::MAX) ==> ({
            let idx = operand_index(code@, pc as int);
            if idx >= class.constants@.len() {
                r == Err::<u16, Trap>(Trap::Bug(VmError::BadConstant))
            } else {
                match class.constants@[idx] {
                    ClassConstant::Fieldref(owner, field, _) => match class_phase(vm, owner@) {
                        None => r matches Err(Trap::NeedsInitialization(n)) && n@ == owner@,
                        Some(InitPhase::Loaded) => r matches Err(Trap::NeedsInitialization(n))
                            && n@ == owner@,
                        Some(InitPhase::Erroneous) => r == Err::<u16, Trap>(
                            Trap::Throw(JavaException::NoClassDefFound),
                        ),
                        Some(_) => match static_value(vm, owner@, field@) {
                            None => r == Err::<u16, Trap>(Trap::Bug(VmError::MissingField)),
                            Some(v) => if old(frame).stack@.len() + slots(v) <= old(
                                frame
                            ).max_stack {
                                r == Ok::<u16, Trap>((pc + 3) as u16) && final(frame).stack@
                                    == pushed(old(frame).stack@, v)
                            } else {
                                r == Err::<u16, Trap>(Trap::Bug(VmError::StackOverflow))
                            },
                        },
                    },
                    _ => r == Err::<u16, Trap>(Trap::Bug(VmError::BadConstant)),
                }
            }
        }),
{
    let p = pc as usize;
    if p + 2 >= code.len() || pc > u16::MAX - 3 {
        return Err(Trap::Bug(VmError::PcOutOfRange));
    }
    let index = code[p + 1] as usize * 256 + code[p + 2] as usize;
    if index >= class.constants.len() {
        return Err(Trap::Bug(VmError::BadConstant));
    }
    match &class.constants[index] {
        ClassConstant::Fieldref(owner, field, _) => {
            let phase = match vm.class_index(owner) {
                Some(i) => vm.classes[i].phase,
                None => return Err(Trap::NeedsInitialization(owner.clone())),
            };
            match phase {
                InitPhase::Loaded => Err(Trap::NeedsInitialization(owner.clone())),
                InitPhase::Erroneous => Err(Trap::Throw(JavaException::NoClassDefFound)),
                _ => match vm.get_static(owner, field) {
                    None => Err(Trap::Bug(VmError::MissingField)),
                    Some(v) => match frame.stack_push_value(v) {
                        Ok(()) => Ok(pc + 3),
                        Err(e) => Err(Trap::Bug(e)),
                    },
                },
            }
        },
        _ => Err(Trap::Bug(VmError::BadConstant)),
    }
}

} // verus!
