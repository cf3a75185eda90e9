use jvm::descriptor::{parse_field_type, DescriptorError};
use jvm::model::{MethodSignature, TypeSignature};

fn class(name: &str) -> TypeSignature {
    TypeSignature::Class(name.to_string())
}

fn array(t: TypeSignature) -> TypeSignature {
    TypeSignature::Array(Box::new(t))
}

#[test]
fn display_of_primitive_types() {
    assert_eq!(TypeSignature::Int.to_string(), "I");
    assert_eq!(TypeSignature::Long.to_string(), "J");
    assert_eq!(TypeSignature::Boolean.to_string(), "Z");
    assert_eq!(TypeSignature::Void.to_string(), "V");
    assert_eq!(TypeSignature::Double.to_string(), "D");
}

#[test]
fn display_of_class_and_array_types() {
    assert_eq!(class("java/lang/String").to_string(), "Ljava/lang/String;");
    assert_eq!(array(class("java/lang/String")).to_string(), "[Ljava/lang/String;");
    assert_eq!(array(array(TypeSignature::Int)).to_string(), "[[I");
}

#[test]
fn display_of_method_signature() {
    let m = MethodSignature {
        parameters: vec![TypeSignature::Int, TypeSignature::Double],
        return_type: TypeSignature::Void,
    };
    assert_eq!(m.to_string(), "(ID)V");
    let main = MethodSignature {
        parameters: vec![array(class("java/lang/String"))],
        return_type: TypeSignature::Void,
    };
    assert_eq!(main.to_descriptor(), "([Ljava/lang/String;)V");
    let none = MethodSignature { parameters: vec![], return_type: TypeSignature::Long };
    assert_eq!(none.to_string(), "()J");
}

#[test]
fn parse_primitive_field_types() {
    assert!(matches!(parse_field_type("I"), Ok(TypeSignature::Int)));
    assert!(matches!(parse_field_type("J"), Ok(TypeSignature::Long)));
    assert!(matches!(parse_field_type("Z"), Ok(TypeSignature::Boolean)));
    assert!(matches!(parse_field_type("C"), Ok(TypeSignature::Char)));
}

#[test]
fn parse_class_and_array_types() {
    match parse_field_type("[Ljava/lang/String;") {
        Ok(TypeSignature::Array(inner)) => match *inner {
            TypeSignature::Class(name) => assert_eq!(name, "java/lang/String"),
            other => panic!("unexpected element type {:?}", other),
        },
        other => panic!("unexpected result {:?}", other),
    }
}

#[test]
fn parse_rejects_bad_descriptors() {
    for bad in ["", "V", "X", "L;", "Ljava/lang/String", "II", "[", "[V", "Ljava;I"] {
        assert_eq!(parse_field_type(bad).unwrap_err(), DescriptorError::BadDescriptor, "{}", bad);
    }
}

#[test]
fn descriptor_round_trip() {
    let types = vec![
        TypeSignature::Byte,
        TypeSignature::Short,
        TypeSignature::Float,
        class("java/lang/Object"),
        array(array(class("a/B"))),
        array(TypeSignature::Long),
    ];
    for t in types {
        let text = t.to_descriptor();
        let back = parse_field_type(&text).unwrap();
        assert_eq!(back.to_descriptor(), text);
        assert_eq!(back, t);
    }
}

#[test]
fn type_signature_equality() {
    assert_eq!(class("a/B"), class("a/B"));
    assert_ne!(class("a/B"), class("a/C"));
    assert_ne!(array(TypeSignature::Int), array(TypeSignature::Long));
    assert_ne!(TypeSignature::Int, array(TypeSignature::Int));
    assert_eq!(TypeSignature::default(), TypeSignature::Void);
}
