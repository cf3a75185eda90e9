use jvm::dispatch::step;
use jvm::eval::iarith::{self, idiv, irem, IADD, IDIV, IUSHR};
use jvm::frame::Frame;
use jvm::eval::{ipush, putstatic};
use jvm::model::{
    ClassAttribute, ClassConstant, ClassField, ClassMethod, ClassVersion, Code, JvmClass, MethodSignature,
    TypeSignature,
};
use jvm::thread::VmThread;
use jvm::value::{JavaException, Trap, VmError, VmValue};
use jvm::vm::Vm;

fn empty_class() -> JvmClass {
    JvmClass {
        version: ClassVersion { major: 52, minor: 0 },
        constants: vec![jvm::model::ClassConstant::Unused],
        access_flags: 0,
        this_class: "T".to_string(),
        super_class: None,
        interfaces: vec![],
        fields: vec![],
        methods: vec![],
        attributes: vec![],
    }
}

fn binop(op: u8, a: i32, b: i32) -> Result<i32, Trap> {
    let mut f = Frame::new(0, 2, vec![op]);
    f.stack_push(VmValue::Int(a)).unwrap();
    f.stack_push(VmValue::Int(b)).unwrap();
    iarith::eval(op, 0, &mut f)?;
    Ok(f.stack_pop_int().unwrap())
}

#[test]
fn int_division_boundaries() {
    assert_eq!(idiv(i32::MIN, -1), Ok(i32::MIN));
    assert_eq!(idiv(7, -2), Ok(-3));
    assert_eq!(idiv(-7, 2), Ok(-3));
    assert_eq!(idiv(1, 0), Err(JavaException::Arithmetic));
    assert_eq!(irem(-7, 2), Ok(-1));
    assert_eq!(irem(7, -2), Ok(1));
    assert_eq!(irem(i32::MIN, -1), Ok(0));
    assert_eq!(irem(3, 0), Err(JavaException::Arithmetic));
}

#[test]
fn int_instructions_on_the_stack() {
    assert_eq!(binop(IADD, i32::MAX, 1).unwrap(), i32::MIN);
    assert_eq!(binop(IDIV, i32::MIN, -1).unwrap(), i32::MIN);
    assert!(matches!(binop(IDIV, 5, 0), Err(Trap::Throw(JavaException::Arithmetic))));
    assert_eq!(binop(IUSHR, -8, 32).unwrap(), -8);
    assert_eq!(binop(IUSHR, -1, 28).unwrap(), 15);
    assert_eq!(binop(iarith::IMUL, 65536, 65536).unwrap(), 0);
    assert_eq!(binop(iarith::ISUB, i32::MIN, 1).unwrap(), i32::MAX);
    assert_eq!(binop(iarith::IREM, 10, 3).unwrap(), 1);
}

#[test]
fn step_runs_and_advances() {
    let mut vm = Vm::new();
    let class = empty_class();
    let mut t = VmThread::new("Thread-0".to_string());
    // lconst_1; lconst_0; return
    t.frame_stack.push(Frame::new(0, 4, vec![0x0a, 0x09, 0xb1]));
    step(&mut vm, &class, &mut t).unwrap();
    assert_eq!(t.frame_stack[0].pc, 1);
    step(&mut vm, &class, &mut t).unwrap();
    assert_eq!(t.frame_stack[0].pc, 2);
    assert_eq!(t.frame_stack[0].stack, vec![VmValue::Long(1), VmValue::Top, VmValue::Long(0), VmValue::Top]);
    step(&mut vm, &class, &mut t).unwrap();
    assert!(t.frame_stack.is_empty());
    assert!(matches!(step(&mut vm, &class, &mut t), Err(Trap::Bug(VmError::StackUnderflow))));
}

#[test]
fn step_rejects_unknown_opcode_and_running_off_the_code() {
    let mut vm = Vm::new();
    let class = empty_class();
    let mut t = VmThread::new("Thread-0".to_string());
    t.frame_stack.push(Frame::new(0, 4, vec![0xfe]));
    assert!(matches!(step(&mut vm, &class, &mut t), Err(Trap::Bug(VmError::UnknownOpcode(0xfe)))));
    let mut u = VmThread::new("Thread-0".to_string());
    u.frame_stack.push(Frame::new(0, 4, vec![0x09]));
    assert!(matches!(step(&mut vm, &class, &mut u), Err(Trap::Bug(VmError::PcOutOfRange))));
    assert_eq!(u.frame_stack[0].pc, 0);
}

#[test]
fn jump_stays_inside_code() {
    let mut f = Frame::new(0, 1, vec![0, 0, 0]);
    assert_eq!(f.jump(2), Ok(()));
    assert_eq!(f.pc, 2);
    assert_eq!(f.jump(3), Err(VmError::PcOutOfRange));
    assert_eq!(f.pc, 2);
}

fn class_with_static(name: &str, t: TypeSignature) -> JvmClass {
    let mut c = empty_class();
    c.this_class = name.to_string();
    c.constants = vec![
        ClassConstant::Unused,
        ClassConstant::Fieldref(name.to_string(), "v".to_string(), t.clone()),
    ];
    c.fields = vec![ClassField { access_flags: 0x0008, name: "v".to_string(), descriptor: t, attributes: vec![] }];
    c
}

fn initialized_vm(c: &JvmClass) -> Vm {
    let mut vm = Vm::new();
    vm.define_class(c);
    vm.begin_initialization(&c.this_class);
    vm.finish_initialization(&c.this_class, true);
    vm
}

#[test]
fn int_pushes() {
    let mut f = Frame::new(0, 4, vec![0x02, 0x10, 0xff, 0x11, 0x80, 0x00]);
    let code = f.code.clone();
    assert_eq!(ipush::eval(0x02, &code, 0, &mut f).unwrap(), 1);
    assert_eq!(ipush::eval(0x10, &code, 1, &mut f).unwrap(), 3);
    assert_eq!(ipush::eval(0x11, &code, 3, &mut f).unwrap(), 6);
    assert_eq!(f.stack, vec![VmValue::Int(-1), VmValue::Int(-1), VmValue::Int(-32768)]);
    assert!(matches!(ipush::eval(0x10, &code, 5, &mut f), Err(Trap::Bug(VmError::UnknownOpcode(0x10)))));
}

#[test]
fn putstatic_narrows_to_field_type() {
    for (t, input, stored) in [
        (TypeSignature::Byte, 200, -56),
        (TypeSignature::Char, -1, 65535),
        (TypeSignature::Short, 40000, -25536),
        (TypeSignature::Boolean, 3, 1),
        (TypeSignature::Int, -7, -7),
    ] {
        let c = class_with_static("S", t);
        let mut vm = initialized_vm(&c);
        let mut f = Frame::new(0, 2, vec![0xb3, 0, 1]);
        f.stack_push(VmValue::Int(input)).unwrap();
        assert_eq!(putstatic::eval(&mut vm, &c, &vec![0xb3, 0, 1], 0, &mut f).unwrap(), 3);
        assert!(f.stack.is_empty());
        assert_eq!(vm.get_static(&"S".to_string(), &"v".to_string()), Some(VmValue::Int(stored)));
    }
}

#[test]
fn putstatic_long_takes_two_slots_and_checks_type() {
    let c = class_with_static("S", TypeSignature::Long);
    let mut vm = initialized_vm(&c);
    let code = vec![0xb3, 0, 1];
    let mut f = Frame::new(0, 4, code.clone());
    f.stack_push(VmValue::Int(1)).unwrap();
    assert!(matches!(putstatic::eval(&mut vm, &c, &code, 0, &mut f), Err(Trap::Bug(_))));
    assert_eq!(f.stack.len(), 1);
    f.stack_push_long(1 << 40).unwrap();
    assert_eq!(putstatic::eval(&mut vm, &c, &code, 0, &mut f).unwrap(), 3);
    assert_eq!(f.stack, vec![VmValue::Int(1)]);
    assert_eq!(vm.get_static(&"S".to_string(), &"v".to_string()), Some(VmValue::Long(1 << 40)));
}

#[test]
fn static_initializer_runs_through_step() {
    // bipush 42; putstatic #1; getstatic #1; iconst_2; idiv; return
    let c = class_with_static("S", TypeSignature::Int);
    let mut vm = Vm::new();
    vm.define_class(&c);
    let mut t = VmThread::new("Thread-0".to_string());
    t.frame_stack.push(Frame::new(0, 2, vec![0x10, 42, 0xb3, 0, 1, 0xb2, 0, 1, 0x05, 0x6c, 0xb1]));
    match step(&mut vm, &c, &mut t) {
        Ok(()) => {},
        other => panic!("unexpected {:?}", other),
    }
    assert!(matches!(step(&mut vm, &c, &mut t), Err(Trap::NeedsInitialization(_))));
    vm.begin_initialization(&"S".to_string());
    while !t.frame_stack.is_empty() {
        if t.frame_stack[0].pc == 10 {
            assert_eq!(t.frame_stack[0].stack, vec![VmValue::Int(21)]);
        }
        step(&mut vm, &c, &mut t).unwrap();
    }
    vm.finish_initialization(&"S".to_string(), true);
    assert_eq!(vm.get_static(&"S".to_string(), &"v".to_string()), Some(VmValue::Int(42)));
}

fn run_to_end(vm: &mut Vm, c: &JvmClass, code: Vec<u8>, max_locals: usize, max_stack: usize) -> Result<(), Trap> {
    let mut t = VmThread::new("Thread-0".to_string());
    t.frame_stack.push(Frame::new(max_locals, max_stack, code));
    while !t.frame_stack.is_empty() {
        step(vm, c, &mut t)?;
    }
    Ok(())
}

#[test]
fn fibonacci_loop_with_locals_and_iinc() {
    let c = class_with_static("S", TypeSignature::Int);
    let mut vm = initialized_vm(&c);
    let code = vec![
        0x03, 0x3b, // i = 0
        0x04, 0x3c, // j = 1
        0x03, 0x3d, // k = 0
        0x1c, 0x10, 20, // k, 20
        0xa2, 0x00, 0x11, // if_icmpge 26
        0x1a, 0x1b, 0x60, 0x3e, // t = i + j
        0x1b, 0x3b, // i = j
        0x1d, 0x3c, // j = t
        0x84, 2, 1, // k++
        0xa7, 0xff, 0xef, // goto 6
        0x1a, 0xb3, 0, 1, // S.v = i
        0xb1,
    ];
    run_to_end(&mut vm, &c, code, 4, 2).unwrap();
    assert_eq!(vm.get_static(&"S".to_string(), &"v".to_string()), Some(VmValue::Int(6765)));
}

#[test]
fn long_store_then_int_load_of_upper_half_is_a_fault() {
    let c = class_with_static("S", TypeSignature::Long);
    let mut vm = initialized_vm(&c);
    // lconst_1; lstore_0; lload_0; putstatic #1; return
    run_to_end(&mut vm, &c, vec![0x0a, 0x3f, 0x1e, 0xb3, 0, 1, 0xb1], 2, 2).unwrap();
    assert_eq!(vm.get_static(&"S".to_string(), &"v".to_string()), Some(VmValue::Long(1)));
    // lconst_1; lstore_0; iload_1
    assert!(matches!(
        run_to_end(&mut vm, &c, vec![0x0a, 0x3f, 0x1b, 0xb1], 2, 2),
        Err(Trap::Bug(VmError::TypeMismatch))
    ));
}

#[test]
fn branch_outside_code_is_a_fault() {
    let c = empty_class();
    let mut vm = Vm::new();
    assert!(matches!(
        run_to_end(&mut vm, &c, vec![0xa7, 0x00, 0x10], 0, 1),
        Err(Trap::Bug(VmError::PcOutOfRange))
    ));
    // iconst_0; ifeq +4 (to return); iconst_1; return
    run_to_end(&mut vm, &c, vec![0x03, 0x99, 0x00, 0x04, 0x04, 0xb1], 0, 1).unwrap();
}

fn with_method(mut c: JvmClass, name: &str, sig: MethodSignature, max_stack: u16, max_locals: u16, code: Vec<u8>) -> JvmClass {
    c.methods.push(ClassMethod {
        access_flags: 0x0009,
        name: name.to_string(),
        descriptor: sig,
        attributes: vec![ClassAttribute::Code(Code {
            max_stack,
            max_locals,
            code,
            exception_table: vec![],
            attributes: vec![],
        })],
    });
    c
}

#[test]
fn recursive_factorial_of_ten() {
    let fact_sig = MethodSignature { parameters: vec![TypeSignature::Int], return_type: TypeSignature::Int };
    let mut c = class_with_static("S", TypeSignature::Int);
    c.constants.push(ClassConstant::Methodref("S".to_string(), "fact".to_string(), fact_sig.clone()));
    let fact = vec![
        0x1a, 0x04, 0xa3, 0x00, 0x05, // if n > 1 goto 7
        0x04, 0xac, // return 1
        0x1a, 0x1a, 0x04, 0x64, // n, n - 1
        0xb8, 0x00, 0x02, // fact(n - 1)
        0x68, 0xac, // return n * fact(n - 1)
    ];
    let c = with_method(c, "fact", fact_sig, 3, 1, fact);
    let mut vm = initialized_vm(&c);
    // S.v = fact(10)
    run_to_end(&mut vm, &c, vec![0x10, 10, 0xb8, 0, 2, 0xb3, 0, 1, 0xb1], 0, 1).unwrap();
    assert_eq!(vm.get_static(&"S".to_string(), &"v".to_string()), Some(VmValue::Int(3628800)));
}

#[test]
fn invoking_another_class_is_left_to_the_embedder() {
    let sig = MethodSignature { parameters: vec![], return_type: TypeSignature::Void };
    let mut c = empty_class();
    c.constants.push(ClassConstant::Methodref("Other".to_string(), "m".to_string(), sig));
    let mut vm = Vm::new();
    assert!(matches!(
        run_to_end(&mut vm, &c, vec![0xb8, 0, 1, 0xb1], 0, 1),
        Err(Trap::Bug(VmError::ForeignMethod))
    ));
}
