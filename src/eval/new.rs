use vstd::prelude::*;
use crate::eval::getstatic::operand_index;
use crate::frame::Frame;
use crate::heap::HeapObject;
use crate::model::{ClassConstant, JvmClass};
use crate::value::{JavaException, Trap, VmError, VmValue};
use crate::vm::{class_phase, InitPhase, Vm};

verus! {

/// The operand stack and the next program counter (or the trap) that a
/// `new` at `pc` gives; `None` where it asks for the class's initialization.
pub open spec fn new_effect(vm: &Vm, class: &JvmClass, code: Seq<u8>, s: Seq<VmValue>, max_stack: usize, pc: int) -> Option<(Seq<VmValue>, Result<int, Trap>)> {
    if pc + 2 >= code.len() || pc + 3 > u16::MAX {
        Some((s, Err(Trap::Bug(VmError::PcOutOfRange))))
    } else if operand_index(code, pc) >= class.constants@.len() {
        Some((s, Err(Trap::Bug(VmError::BadConstant))))
    } else {
        match class.constants@[operand_index(code, pc)] {
            ClassConstant::Class(name) => match class_phase(vm, name@) {
                None => None,
                Some(InitPhase::Loaded) => None,
                Some(InitPhase::Erroneous) => Some(
                    (s, Err(Trap::Throw(JavaException::NoClassDefFound))),
                ),
                Some(_) => if s.len() < max_stack {
                    Some((s.push(VmValue::Reference(vm.heap.objects@.len() as usize)), Ok(pc + 3)))
                } else {
                    Some((s, Err(Trap::Bug(VmError::StackOverflow))))
                },
            },
            _ => Some((s, Err(Trap::Bug(VmError::BadConstant)))),
        }
    }
}

/// `new`: allocates an object of the class that the `Class` constant named
/// by the two operand bytes gives, and pushes a reference to it. As with
/// `getstatic`, the class must be initialized (or being initialized by this
/// thread) first: otherwise the instruction asks for its initialization and
/// is to be retried, and a class whose initialization failed raises
/// `NoClassDefFoundError`. Only a successful `new` changes the heap.
pub fn eval(vm: &mut Vm, class: &JvmClass, code: &Vec<u8>, pc: u16, frame: &mut Frame) -> (r: Result<
    u16,
    Trap,
>)
    ensures
        final(vm).classes == old(vm).classes,
        final(frame).locals == old(frame).locals,
        final(frame).code == old(frame).code,
        final(frame).max_stack == old(frame).max_stack,
        final(frame).pc == old(frame).pc,
        old(frame).wf() ==> final(frame).wf(),
        r is Err ==> final(frame).stack == old(frame).stack && final(vm).heap == old(vm).heap,
        (pc + 2 >= code@.len() || pc + 3 > u16::MAX) ==> r == Err::<u16, Trap>(
            Trap::Bug(VmError::PcOutOfRange),
        ),
        (pc + 2 < code@.len() && pc + 3 <= u16::MAX) ==> ({
            let idx = operand_index(code@, pc as int);
            if idx >= class.constants@.len() {
                r == Err::<u16, Trap>(Trap::Bug(VmError::BadConstant))
            } else {
                match class.constants@[idx] {
                    ClassConstant::Class(name) => match class_phase(old(vm), name@) {
                        None => r matches Err(Trap::NeedsInitialization(n)) && n@ == name@,
                        Some(InitPhase::Loaded) => r matches Err(Trap::NeedsInitialization(n))
                            && n@ == name@,
                        Some(InitPhase::Erroneous) => r == Err::<u16, Trap>(
                            Trap::Throw(JavaException::NoClassDefFound),
                        ),
                        Some(_) => if old(frame).stack@.len() < old(frame).max_stack {
                            let h = old(vm).heap.objects@.len();
                            &&& r == Ok::<u16, Trap>((pc + 3) as u16)
                            &&& final(frame).stack@ == old(frame).stack@.push(
                                VmValue::Reference(h as usize),
                            )
                            &&& final(vm).heap.objects@.len() == h + 1
                            &&& forall|k: int|
                                0 <= k < h ==> final(vm).heap.objects@[k] == old(
                                    vm
                                ).heap.objects@[k]
                            &&& match final(vm).heap.objects@[h as int] {
                                HeapObject::Instance(o) => o.class_name@ == name@
                                    && o.fields@.len() == 0,
                                _ => false,
                            }
                        } else {
                            r == Err::<u16, Trap>(Trap::Bug(VmError::StackOverflow))
                        },
                    },
                    _ => r == Err::<u16, Trap>(Trap::Bug(VmError::BadConstant)),
                }
            }
        }),
{
    let p = pc as usize;
    if p + 2 >= code.len() || pc > u16::MAX - 3 {
        return Err(Trap::Bug(VmError::PcOutOfRange));
    }
    let index = code[p + 1] as usize * 256 + code[p + 2] as usize;
    if index >= class.constants.len() {
        return Err(Trap::Bug(VmError::BadConstant));
    }
    match &class.constants[index] {
        ClassConstant::Class(name) => {
            let phase = match vm.class_index(name) {
                Some(i) => vm.classes[i].phase,
                None => return Err(Trap::NeedsInitialization(name.clone())),
            };
            match phase {
                InitPhase::Loaded => Err(Trap::NeedsInitialization(name.clone())),
                InitPhase::Erroneous => Err(Trap::Throw(JavaException::NoClassDefFound)),
                _ => {
                    if frame.stack.len() >= frame.max_stack {
                        return Err(Trap::Bug(VmError::StackOverflow));
                    }
                    let h = vm.heap.alloc_instance(name.clone());
                    frame.stack.push(VmValue::Reference(h));
                    Ok(pc + 3)
                },
            }
        },
        _ => Err(Trap::Bug(VmError::BadConstant)),
    }
}

} // verus!
