use jvm::eval::{dastore, getstatic, lconst, monitorenter, new};
use jvm::frame::Frame;
use jvm::heap::{Heap, HeapObject};
use jvm::model::{ClassConstant, ClassField, ClassVersion, JvmClass, TypeSignature};
use jvm::thread::VmThread;
use jvm::value::{JavaException, Trap, VmError, VmValue};
use jvm::vm::{InitPhase, InitStep, Vm};

fn frame(max_locals: usize, max_stack: usize) -> Frame {
    Frame::new(max_locals, max_stack, vec![0u8; 8])
}

fn static_field(name: &str, descriptor: TypeSignature) -> ClassField {
    ClassField { access_flags: 0x0008, name: name.to_string(), descriptor, attributes: vec![] }
}

fn class_with(name: &str, fields: Vec<ClassField>, constants: Vec<ClassConstant>) -> JvmClass {
    JvmClass {
        version: ClassVersion { major: 52, minor: 0 },
        constants,
        access_flags: 0x0021,
        this_class: name.to_string(),
        super_class: Some("java/lang/Object".to_string()),
        interfaces: vec![],
        fields,
        methods: vec![],
        attributes: vec![],
    }
}

fn fieldref(owner: &str, field: &str) -> ClassConstant {
    ClassConstant::Fieldref(owner.to_string(), field.to_string(), TypeSignature::Int)
}

fn thread_with(f: Frame) -> VmThread {
    let mut t = VmThread::new("Thread-0".to_string());
    t.frame_stack.push(f);
    t
}

#[test]
fn lconst_pushes_two_slots() {
    let mut f = frame(0, 4);
    assert_eq!(lconst::eval(1, 10, &mut f).unwrap(), 11);
    assert_eq!(f.stack, vec![VmValue::Long(1), VmValue::Top]);
    assert_eq!(f.stack_pop_long().unwrap(), 1);
    assert!(f.stack.is_empty());
}

#[test]
fn lconst_overflow_is_an_interpreter_fault() {
    let mut f = frame(0, 1);
    assert!(matches!(lconst::eval(0, 0, &mut f), Err(Trap::Bug(VmError::StackOverflow))));
    assert!(f.stack.is_empty());
}

#[test]
fn stack_stays_within_its_bound() {
    let mut f = frame(0, 2);
    assert!(f.stack_push(VmValue::Int(1)).is_ok());
    assert!(f.stack_push(VmValue::Int(2)).is_ok());
    assert_eq!(f.stack_push(VmValue::Int(3)), Err(VmError::StackOverflow));
    assert_eq!(f.stack.len(), 2);
    assert_eq!(f.stack_pop_int(), Ok(2));
    assert_eq!(f.stack_pop_double(), Err(VmError::StackUnderflow));
}

#[test]
fn long_local_is_a_matched_pair() {
    let mut f = frame(3, 0);
    f.store_local_long(1, 42).unwrap();
    assert_eq!(f.load_local_long(1), Ok(42));
    assert_eq!(f.load_local_int(2), Err(VmError::TypeMismatch));
    assert_eq!(f.store_local_long(2, 1), Err(VmError::LocalOutOfRange));
    f.store_local_int(0, 7).unwrap();
    assert_eq!(f.load_local_int(0), Ok(7));
}

fn dastore_setup(index: i32, atype: u8, length: usize) -> (VmThread, Heap, usize) {
    let mut heap = Heap::new();
    let h = heap.alloc_array(Some(atype), length);
    let mut f = frame(0, 4);
    f.stack_push(VmValue::Reference(h)).unwrap();
    f.stack_push(VmValue::Int(index)).unwrap();
    f.stack_push_double(2.5f64.to_bits()).unwrap();
    (thread_with(f), heap, h)
}

#[test]
fn dastore_writes_element() {
    let (mut t, mut heap, h) = dastore_setup(1, 7, 3);
    assert_eq!(dastore::eval(&mut t, &mut heap, 20).unwrap(), 21);
    assert!(t.frame_stack[0].stack.is_empty());
    match &heap.objects[h] {
        HeapObject::Array(a) => {
            assert_eq!(a.elements[1], VmValue::Double(2.5f64.to_bits()));
            assert_eq!(a.elements[0], VmValue::Double(0));
        },
        _ => panic!("not an array"),
    }
}

#[test]
fn dastore_index_minus_one_and_length_are_out_of_bounds() {
    for index in [-1, 3] {
        let (mut t, mut heap, _) = dastore_setup(index, 7, 3);
        assert!(matches!(
            dastore::eval(&mut t, &mut heap, 0),
            Err(Trap::Throw(JavaException::ArrayIndexOutOfBounds))
        ));
    }
}

#[test]
fn dastore_on_null_array() {
    let mut heap = Heap::new();
    let mut f = frame(0, 4);
    f.stack_push(VmValue::Null).unwrap();
    f.stack_push(VmValue::Int(0)).unwrap();
    f.stack_push_double(0).unwrap();
    let mut t = thread_with(f);
    assert!(matches!(
        dastore::eval(&mut t, &mut heap, 0),
        Err(Trap::Throw(JavaException::NullPointer))
    ));
}

#[test]
fn dastore_requires_double_array() {
    let (mut t, mut heap, _) = dastore_setup(0, 10, 3);
    assert!(matches!(dastore::eval(&mut t, &mut heap, 0), Err(Trap::Bug(VmError::TypeMismatch))));
}

#[test]
fn monitorenter_on_null_and_object() {
    let mut f = frame(0, 2);
    f.stack_push(VmValue::Reference(0)).unwrap();
    f.stack_push(VmValue::Null).unwrap();
    let mut t = thread_with(f);
    assert!(matches!(monitorenter::eval(&mut t, 5), Err(Trap::Throw(JavaException::NullPointer))));
    assert_eq!(monitorenter::eval(&mut t, 5).unwrap(), 6);
    assert!(t.frame_stack[0].stack.is_empty());
    assert!(matches!(monitorenter::eval(&mut t, 5), Err(Trap::Bug(VmError::StackUnderflow))));
}

#[test]
fn initialization_runs_once_and_is_reentrant() {
    let mut vm = Vm::new();
    let name = "A".to_string();
    assert!(matches!(vm.begin_initialization(&name), InitStep::NotLoaded));
    vm.define_class(&class_with("A", vec![], vec![]));
    match vm.begin_initialization(&name) {
        InitStep::RunInitializer(Some(s)) => assert_eq!(s, "java/lang/Object"),
        other => panic!("unexpected {:?}", other),
    }
    assert!(matches!(vm.begin_initialization(&name), InitStep::Ready));
    vm.finish_initialization(&name, true);
    assert_eq!(vm.classes[0].phase, InitPhase::Initialized);
    assert!(matches!(vm.begin_initialization(&name), InitStep::Ready));
}

#[test]
fn failed_initialization_makes_class_erroneous() {
    let mut vm = Vm::new();
    let name = "A".to_string();
    vm.define_class(&class_with("A", vec![], vec![]));
    vm.begin_initialization(&name);
    vm.finish_initialization(&name, false);
    assert!(matches!(vm.begin_initialization(&name), InitStep::Failed));
    let c = class_with("C", vec![], vec![ClassConstant::Unused, fieldref("A", "x")]);
    let mut f = frame(0, 2);
    assert!(matches!(
        getstatic::eval(&vm, &c, &vec![0xb2, 0, 1], 0, &mut f),
        Err(Trap::Throw(JavaException::NoClassDefFound))
    ));
}

#[test]
fn static_fields_start_at_their_defaults() {
    let mut vm = Vm::new();
    let fields = vec![
        static_field("i", TypeSignature::Int),
        static_field("j", TypeSignature::Long),
        static_field("s", TypeSignature::Class("java/lang/String".to_string())),
        ClassField {
            access_flags: 0x0001,
            name: "inst".to_string(),
            descriptor: TypeSignature::Int,
            attributes: vec![],
        },
    ];
    vm.define_class(&class_with("A", fields, vec![]));
    let a = "A".to_string();
    assert_eq!(vm.get_static(&a, &"i".to_string()), Some(VmValue::Int(0)));
    assert_eq!(vm.get_static(&a, &"j".to_string()), Some(VmValue::Long(0)));
    assert_eq!(vm.get_static(&a, &"s".to_string()), Some(VmValue::Null));
    assert_eq!(vm.get_static(&a, &"inst".to_string()), None);
    assert!(vm.put_static(&a, &"i".to_string(), VmValue::Int(9)));
    assert_eq!(vm.get_static(&a, &"i".to_string()), Some(VmValue::Int(9)));
    assert!(!vm.put_static(&a, &"nope".to_string(), VmValue::Int(1)));
}

#[test]
fn getstatic_asks_for_initialization_first() {
    let mut vm = Vm::new();
    let c = class_with("Main", vec![], vec![ClassConstant::Unused, fieldref("A", "x")]);
    let code = vec![0xb2, 0, 1];
    let mut f = frame(0, 2);
    match getstatic::eval(&vm, &c, &code, 0, &mut f) {
        Err(Trap::NeedsInitialization(n)) => assert_eq!(n, "A"),
        other => panic!("unexpected {:?}", other),
    }
    vm.define_class(&class_with("A", vec![static_field("x", TypeSignature::Int)], vec![]));
    assert!(matches!(getstatic::eval(&vm, &c, &code, 0, &mut f), Err(Trap::NeedsInitialization(_))));
    let a = "A".to_string();
    vm.begin_initialization(&a);
    vm.put_static(&a, &"x".to_string(), VmValue::Int(5));
    vm.finish_initialization(&a, true);
    assert_eq!(getstatic::eval(&vm, &c, &code, 0, &mut f).unwrap(), 3);
    assert_eq!(f.stack, vec![VmValue::Int(5)]);
}

#[test]
fn getstatic_rejects_bad_operands() {
    let vm = Vm::new();
    let c = class_with("Main", vec![], vec![ClassConstant::Unused, ClassConstant::Integer(3)]);
    let mut f = frame(0, 2);
    assert!(matches!(
        getstatic::eval(&vm, &c, &vec![0xb2, 0], 0, &mut f),
        Err(Trap::Bug(VmError::PcOutOfRange))
    ));
    assert!(matches!(
        getstatic::eval(&vm, &c, &vec![0xb2, 0, 1], 0, &mut f),
        Err(Trap::Bug(VmError::BadConstant))
    ));
    assert!(matches!(
        getstatic::eval(&vm, &c, &vec![0xb2, 1, 1], 0, &mut f),
        Err(Trap::Bug(VmError::BadConstant))
    ));
}

#[test]
fn cyclic_static_initialization_reads_defaults() {
    // A's initializer reads B.y; B's initializer reads A.x while A is still
    // being initialized, and so sees its default.
    let mut vm = Vm::new();
    let a = "A".to_string();
    let b = "B".to_string();
    let ca = class_with("A", vec![static_field("x", TypeSignature::Int)], vec![ClassConstant::Unused, fieldref("B", "y")]);
    let cb = class_with("B", vec![static_field("y", TypeSignature::Int)], vec![ClassConstant::Unused, fieldref("A", "x")]);
    let code = vec![0xb2, 0, 1];
    vm.define_class(&ca);
    vm.define_class(&cb);
    assert!(matches!(vm.begin_initialization(&a), InitStep::RunInitializer(_)));
    // A's <clinit>: getstatic B.y
    let mut fa = frame(0, 2);
    assert!(matches!(getstatic::eval(&vm, &ca, &code, 0, &mut fa), Err(Trap::NeedsInitialization(_))));
    assert!(matches!(vm.begin_initialization(&b), InitStep::RunInitializer(_)));
    // B's <clinit>: y = A.x + 1
    let mut fb = frame(0, 2);
    assert_eq!(getstatic::eval(&vm, &cb, &code, 0, &mut fb).unwrap(), 3);
    let ax = fb.stack_pop_int().unwrap();
    assert_eq!(ax, 0);
    vm.put_static(&b, &"y".to_string(), VmValue::Int(ax + 1));
    vm.finish_initialization(&b, true);
    // back in A's <clinit>: x = B.y + 1
    assert_eq!(getstatic::eval(&vm, &ca, &code, 0, &mut fa).unwrap(), 3);
    let by = fa.stack_pop_int().unwrap();
    vm.put_static(&a, &"x".to_string(), VmValue::Int(by + 1));
    vm.finish_initialization(&a, true);
    assert_eq!(vm.get_static(&a, &"x".to_string()), Some(VmValue::Int(2)));
    assert_eq!(vm.get_static(&b, &"y".to_string()), Some(VmValue::Int(1)));
}

#[test]
fn new_allocates_only_initialized_classes() {
    let mut vm = Vm::new();
    let main = class_with("Main", vec![], vec![ClassConstant::Unused, ClassConstant::Class("P".to_string())]);
    let code = vec![0xbb, 0, 1];
    let mut f = frame(0, 1);
    match new::eval(&mut vm, &main, &code, 0, &mut f) {
        Err(Trap::NeedsInitialization(n)) => assert_eq!(n, "P"),
        other => panic!("unexpected {:?}", other),
    }
    assert!(vm.heap.objects.is_empty());
    vm.define_class(&class_with("P", vec![], vec![]));
    let p = "P".to_string();
    vm.begin_initialization(&p);
    vm.finish_initialization(&p, true);
    assert_eq!(new::eval(&mut vm, &main, &code, 0, &mut f).unwrap(), 3);
    assert_eq!(f.stack, vec![VmValue::Reference(0)]);
    match &vm.heap.objects[0] {
        HeapObject::Instance(o) => assert_eq!(o.class_name, "P"),
        _ => panic!("not an instance"),
    }
    assert!(matches!(new::eval(&mut vm, &main, &code, 0, &mut f), Err(Trap::Bug(VmError::StackOverflow))));
    assert_eq!(vm.heap.objects.len(), 1);
}

fn class_extending(name: &str, sup: &str) -> JvmClass {
    let mut c = class_with(name, vec![], vec![]);
    c.super_class = Some(sup.to_string());
    c
}

fn handler(start_pc: u16, end_pc: u16, handler_pc: u16, catch: Option<&str>) -> jvm::model::ExceptionTable {
    jvm::model::ExceptionTable { start_pc, end_pc, handler_pc, catch_type: catch.map(|s| s.to_string()) }
}

#[test]
fn exception_handlers_match_by_range_and_ancestry() {
    let mut vm = Vm::new();
    vm.define_class(&class_extending("java/lang/Throwable", "java/lang/Object"));
    vm.define_class(&class_extending("java/lang/Exception", "java/lang/Throwable"));
    vm.define_class(&class_extending("java/lang/RuntimeException", "java/lang/Exception"));
    vm.define_class(&class_extending("java/io/IOException", "java/lang/Exception"));
    let rte = "java/lang/RuntimeException".to_string();
    assert!(jvm::eval::athrow::subclass_of(&vm, &rte, &"java/lang/Throwable".to_string()));
    assert!(!jvm::eval::athrow::subclass_of(&vm, &rte, &"java/io/IOException".to_string()));
    let table = vec![
        handler(0, 4, 10, Some("java/io/IOException")),
        handler(2, 8, 20, Some("java/lang/Exception")),
        handler(0, 8, 30, None),
    ];
    assert_eq!(jvm::eval::athrow::find_handler(&vm, &table, 3, &rte), Some(20));
    assert_eq!(jvm::eval::athrow::find_handler(&vm, &table, 1, &rte), Some(30));
    assert_eq!(jvm::eval::athrow::find_handler(&vm, &table, 8, &rte), None);
    assert_eq!(jvm::eval::athrow::find_handler(&vm, &table, 1, &"java/io/IOException".to_string()), Some(10));
}
