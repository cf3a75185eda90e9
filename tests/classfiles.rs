use jvm::classfile::{parse_class, parse_constant_pool, read_u16, read_u32, MalformedClass, MalformedReason};
use jvm::descriptor::{parse_method_descriptor, DescriptorError};
use jvm::eval::invoke::{code_of, find_method};
use jvm::model::{ClassAttribute, ClassConstant, TypeSignature};

fn u16be(out: &mut Vec<u8>, v: u16) {
    out.extend_from_slice(&v.to_be_bytes());
}

fn utf8(out: &mut Vec<u8>, s: &str) {
    out.push(1);
    u16be(out, s.len() as u16);
    out.extend_from_slice(s.as_bytes());
}

/// A small class `Demo extends java/lang/Object` with one static int field,
/// a `main` method holding a `Code` attribute, a long and a double constant,
/// and a field reference.
fn demo_class() -> Vec<u8> {
    let mut b = vec![0xCA, 0xFE, 0xBA, 0xBE, 0, 0, 0, 52];
    let mut pool = Vec::new();
    utf8(&mut pool, "Demo"); // 1
    pool.extend_from_slice(&[7, 0, 1]); // 2 Class Demo
    utf8(&mut pool, "java/lang/Object"); // 3
    pool.extend_from_slice(&[7, 0, 3]); // 4 Class Object
    utf8(&mut pool, "count"); // 5
    utf8(&mut pool, "I"); // 6
    pool.extend_from_slice(&[12, 0, 5, 0, 6]); // 7 NameAndType count:I
    pool.extend_from_slice(&[9, 0, 2, 0, 7]); // 8 Fieldref Demo.count:I
    pool.push(5); // 9-10 Long
    pool.extend_from_slice(&10i64.to_be_bytes());
    pool.push(6); // 11-12 Double
    pool.extend_from_slice(&1.5f64.to_bits().to_be_bytes());
    utf8(&mut pool, "main"); // 13
    utf8(&mut pool, "([Ljava/lang/String;)V"); // 14
    utf8(&mut pool, "Code"); // 15
    pool.extend_from_slice(&[3, 0xFF, 0xFF, 0xFF, 0xFE]); // 16 Integer -2
    u16be(&mut b, 17);
    b.extend_from_slice(&pool);
    u16be(&mut b, 0x0021); // access
    u16be(&mut b, 2); // this
    u16be(&mut b, 4); // super
    u16be(&mut b, 0); // interfaces
    u16be(&mut b, 1); // fields
    u16be(&mut b, 0x0008);
    u16be(&mut b, 5);
    u16be(&mut b, 6);
    u16be(&mut b, 0);
    u16be(&mut b, 1); // methods
    u16be(&mut b, 0x0009);
    u16be(&mut b, 13);
    u16be(&mut b, 14);
    u16be(&mut b, 1); // one attribute: Code
    u16be(&mut b, 15);
    let code = [0xb1u8]; // return
    let mut body = Vec::new();
    u16be(&mut body, 1);
    u16be(&mut body, 1);
    body.extend_from_slice(&(code.len() as u32).to_be_bytes());
    body.extend_from_slice(&code);
    u16be(&mut body, 0);
    u16be(&mut body, 0);
    b.extend_from_slice(&(body.len() as u32).to_be_bytes());
    b.extend_from_slice(&body);
    u16be(&mut b, 0); // class attributes
    b
}

#[test]
fn big_endian_reads() {
    let b = [0x12, 0x34, 0x56, 0x78];
    assert_eq!(read_u16(&b, 0), Ok(0x1234));
    assert_eq!(read_u16(&b, 2), Ok(0x5678));
    assert_eq!(read_u32(&b, 0), Ok(0x12345678));
    assert_eq!(read_u16(&b, 3), Err(MalformedClass { offset: 3, reason: MalformedReason::ShortRead }));
}

#[test]
fn parses_demo_class() {
    let c = parse_class(&demo_class()).unwrap();
    assert_eq!(c.version.major, 52);
    assert_eq!(c.version.minor, 0);
    assert_eq!(c.this_class, "Demo");
    assert_eq!(c.super_class.as_deref(), Some("java/lang/Object"));
    assert_eq!(c.access_flags, 0x0021);
    assert_eq!(c.fields.len(), 1);
    assert_eq!(c.fields[0].name, "count");
    assert!(matches!(c.fields[0].descriptor, TypeSignature::Int));
    assert_eq!(c.methods.len(), 1);
    assert_eq!(c.methods[0].name, "main");
    assert_eq!(c.methods[0].descriptor.to_string(), "([Ljava/lang/String;)V");
    match &c.methods[0].attributes[0] {
        ClassAttribute::Code(code) => {
            assert_eq!(code.code, vec![0xb1]);
            assert_eq!(code.max_stack, 1);
        },
        other => panic!("unexpected attribute {:?}", other),
    }
}

#[test]
fn constant_pool_layout() {
    let c = parse_class(&demo_class()).unwrap();
    let pool = &c.constants;
    assert_eq!(pool.len(), 17);
    assert!(matches!(pool[0], ClassConstant::Unused));
    assert!(matches!(pool[9], ClassConstant::Long(10)));
    assert!(matches!(pool[10], ClassConstant::Unused));
    assert!(matches!(pool[11], ClassConstant::Double(bits) if bits == 1.5f64.to_bits()));
    assert!(matches!(pool[12], ClassConstant::Unused));
    assert!(matches!(pool[16], ClassConstant::Integer(-2)));
    match &pool[8] {
        ClassConstant::Fieldref(owner, name, TypeSignature::Int) => {
            assert_eq!(owner, "Demo");
            assert_eq!(name, "count");
        },
        other => panic!("unexpected constant {:?}", other),
    }
    for k in 0..pool.len() {
        if matches!(pool[k], ClassConstant::Long(_) | ClassConstant::Double(_)) {
            assert!(matches!(pool[k + 1], ClassConstant::Unused));
        }
    }
    let (same, _) = parse_constant_pool(&demo_class()).unwrap();
    assert_eq!(same.len(), 17);
}

#[test]
fn rejects_bad_magic_and_short_input() {
    let mut b = demo_class();
    b[0] = 0xCB;
    assert_eq!(parse_class(&b).unwrap_err(), MalformedClass { offset: 0, reason: MalformedReason::BadMagic });
    assert_eq!(parse_class(&[0xCA, 0xFE]).unwrap_err().reason, MalformedReason::ShortRead);
    let whole = demo_class();
    assert_eq!(parse_class(&whole[..whole.len() - 1]).unwrap_err().reason, MalformedReason::ShortRead);
}

#[test]
fn rejects_unsupported_tag() {
    let mut b = vec![0xCA, 0xFE, 0xBA, 0xBE, 0, 0, 0, 52, 0, 2, 2];
    b.extend_from_slice(&[0; 20]);
    assert_eq!(parse_class(&b).unwrap_err(), MalformedClass { offset: 10, reason: MalformedReason::UnsupportedTag(2) });
}

#[test]
fn parse_method_descriptors() {
    let m = parse_method_descriptor("(ID[Ljava/lang/String;)V").unwrap();
    assert_eq!(m.parameters.len(), 3);
    assert!(matches!(m.return_type, TypeSignature::Void));
    assert_eq!(m.to_string(), "(ID[Ljava/lang/String;)V");
    let n = parse_method_descriptor("()J").unwrap();
    assert!(n.parameters.is_empty());
    assert!(matches!(n.return_type, TypeSignature::Long));
    for bad in ["", "I", "(", "()", "(V)V", "()VV", "(I)[V", "(I", "(L;)V", "()I)"] {
        assert_eq!(parse_method_descriptor(bad).unwrap_err(), DescriptorError::BadDescriptor, "{}", bad);
    }
}

#[test]
fn error_offsets_point_at_the_defect() {
    // a Utf8 entry whose bytes are not UTF-8
    let mut b = vec![0xCA, 0xFE, 0xBA, 0xBE, 0, 0, 0, 52, 0, 2, 1, 0, 2, 0xC3, 0x28];
    b.extend_from_slice(&[0; 16]);
    assert_eq!(parse_class(&b).unwrap_err(), MalformedClass { offset: 13, reason: MalformedReason::BadUtf8 });
    // a Utf8 entry longer than the file: the read runs off the end
    let c = vec![0xCA, 0xFE, 0xBA, 0xBE, 0, 0, 0, 52, 0, 2, 1, 0, 9, b'a'];
    assert_eq!(parse_class(&c).unwrap_err(), MalformedClass { offset: c.len(), reason: MalformedReason::ShortRead });
    // a pool count of zero
    let mut d = vec![0xCA, 0xFE, 0xBA, 0xBE, 0, 0, 0, 52, 0, 0];
    d.extend_from_slice(&[0; 16]);
    assert_eq!(parse_class(&d).unwrap_err(), MalformedClass { offset: 8, reason: MalformedReason::BadIndex });
    // this_class pointing at a Utf8 entry instead of a Class entry
    let mut e = demo_class();
    let at = demo_this_offset();
    e[at] = 0;
    e[at + 1] = 1;
    assert_eq!(parse_class(&e).unwrap_err(), MalformedClass { offset: at, reason: MalformedReason::BadIndex });
}

/// The offset of `this_class` in the demo class: right after the pool and
/// the access flags.
fn demo_this_offset() -> usize {
    let b = demo_class();
    (10..b.len() - 6).find(|&i| b[i..i + 6] == [0x00, 0x21, 0x00, 0x02, 0x00, 0x04]).unwrap() + 2
}

#[test]
fn method_lookup_by_name_and_descriptor() {
    let c = parse_class(&demo_class()).unwrap();
    let main_sig = parse_method_descriptor("([Ljava/lang/String;)V").unwrap();
    assert_eq!(find_method(&c, &"main".to_string(), &main_sig), Some(0));
    let other = parse_method_descriptor("()V").unwrap();
    assert_eq!(find_method(&c, &"main".to_string(), &other), None);
    assert_eq!(find_method(&c, &"nope".to_string(), &main_sig), None);
    assert!(code_of(&c.methods[0]).is_some());
}
