use vstd::prelude::*;

verus! {

/// Major and minor version of a class file.
#[derive(Clone, Copy, Debug, PartialEq, Eq, Structural, Default)]
pub struct ClassVersion {
    pub major: u16,
    pub minor: u16,
}

/// One entry of a decoded constant pool. Indirect entries are resolved to the
/// values they name; floating-point constants keep their IEEE-754 bit pattern.
#[derive(Clone, Debug)]
pub enum ClassConstant {
    Unused,
    Class(String),
    Fieldref(String, String, TypeSignature),
    Methodref(String, String, MethodSignature),
    InterfaceMethodref(String, String, MethodSignature),
    String(String),
    Integer(i32),
    Float(u32),
    Long(i64),
    Double(u64),
    MethodNameAndType(String, MethodSignature),
    FieldNameAndType(String, TypeSignature),
    Utf8(String),
    MethodType(MethodSignature),
    Dynamic(u16, String, MethodSignature),
    InvokeDynamic(u16, String, MethodSignature),
    NotImplemented,
}

#[derive(Clone, Copy, Debug, PartialEq, Eq, Structural)]
pub enum ClassAccessFlag {
    Public,
    Private,
    Protected,
    Final,
    Super,
    Interface,
    Abstract,
    Synthetic,
    Annotation,
    Enum,
    Module,
}

#[derive(Clone, Copy, Debug, PartialEq, Eq, Structural)]
pub enum FieldAccessFlag {
    /// Declared public; may be accessed from outside its package.
    Public,
    /// Declared private; usable only within the defining class.
    Private,
    /// Declared protected; may be accessed within subclasses.
    Protected,
    /// Declared static.
    Static,
    /// Declared final; never directly assigned to after object construction.
    Final,
    /// Declared volatile; cannot be cached.
    Volatile,
    /// Declared transient; not written or read by a persistent object manager.
    Transient,
    /// Declared synthetic; not present in the source code.
    Synthetic,
    /// Declared as an annotation type.
    Annotation,
    /// Declared as an element of an enum.
    Enum,
}

#[derive(Clone, Copy, Debug, PartialEq, Eq, Structural)]
pub enum MethodAccessFlag {
    /// Declared public; may be accessed from outside its package.
    Public,
    /// Declared private; accessible only within the defining class.
    Private,
    /// Declared protected; may be accessed within subclasses.
    Protected,
    /// Declared static.
    Static,
    /// Declared final; must not be overridden.
    Final,
    /// Declared synchronized; invocation is wrapped by a monitor use.
    Synchronized,
    /// A bridge method, generated by the compiler.
    Bridge,
    /// Declared with variable number of arguments.
    Varargs,
    /// Declared native; implemented in a language other than Java.
    Native,
    /// Declared abstract; no implementation is provided.
    Abstract,
    /// Declared strictfp; floating-point mode is FP-strict.
    Strict,
    /// Declared synthetic; not present in the source code.
    Synthetic,
}

/// The bit that a class access flag occupies in the class file's `access_flags`.
pub open spec fn class_flag_bit(f: ClassAccessFlag) -> u16 {
    match f {
        ClassAccessFlag::Public => 0x0001,
        ClassAccessFlag::Private => 0x0002,
        ClassAccessFlag::Protected => 0x0004,
        ClassAccessFlag::Final => 0x0010,
        ClassAccessFlag::Super => 0x0020,
        ClassAccessFlag::Interface => 0x0200,
        ClassAccessFlag::Abstract => 0x0400,
        ClassAccessFlag::Synthetic => 0x1000,
        ClassAccessFlag::Annotation => 0x2000,
        ClassAccessFlag::Enum => 0x4000,
        ClassAccessFlag::Module => 0x8000,
    }
}

/// The bit that a field access flag occupies in a field's `access_flags`.
pub open spec fn field_flag_bit(f: FieldAccessFlag) -> u16 {
    match f {
        FieldAccessFlag::Public => 0x0001,
        FieldAccessFlag::Private => 0x0002,
        FieldAccessFlag::Protected => 0x0004,
        FieldAccessFlag::Static => 0x0008,
        FieldAccessFlag::Final => 0x0010,
        FieldAccessFlag::Volatile => 0x0040,
        FieldAccessFlag::Transient => 0x0080,
        FieldAccessFlag::Synthetic => 0x1000,
        FieldAccessFlag::Annotation => 0x2000,
        FieldAccessFlag::Enum => 0x4000,
    }
}

/// The bit that a method access flag occupies in a method's `access_flags`.
pub open spec fn method_flag_bit(f: MethodAccessFlag) -> u16 {
    match f {
        MethodAccessFlag::Public => 0x0001,
        MethodAccessFlag::Private => 0x0002,
        MethodAccessFlag::Protected => 0x0004,
        MethodAccessFlag::Static => 0x0008,
        MethodAccessFlag::Final => 0x0010,
        MethodAccessFlag::Synchronized => 0x0020,
        MethodAccessFlag::Bridge => 0x0040,
        MethodAccessFlag::Varargs => 0x0080,
        MethodAccessFlag::Native => 0x0100,
        MethodAccessFlag::Abstract => 0x0400,
        MethodAccessFlag::Strict => 0x0800,
        MethodAccessFlag::Synthetic => 0x1000,
    }
}

impl ClassAccessFlag {
    pub fn bit(&self) -> (r: u16)
        ensures
            r == class_flag_bit(*self),
    {
        match self {
            ClassAccessFlag::Public => 0x0001,
            ClassAccessFlag::Private => 0x0002,
            ClassAccessFlag::Protected => 0x0004,
            ClassAccessFlag::Final => 0x0010,
            ClassAccessFlag::Super => 0x0020,
            ClassAccessFlag::Interface => 0x0200,
            ClassAccessFlag::Abstract => 0x0400,
            ClassAccessFlag::Synthetic => 0x1000,
            ClassAccessFlag::Annotation => 0x2000,
            ClassAccessFlag::Enum => 0x4000,
            ClassAccessFlag::Module => 0x8000,
        }
    }

    /// Whether this flag is set in a raw `access_flags` mask.
    pub fn is_set_in(&self, mask: u16) -> (r: bool)
        ensures
            r == (mask & class_flag_bit(*self) != 0),
    {
        mask & self.bit() != 0
    }
}

impl FieldAccessFlag {
    pub fn bit(&self) -> (r: u16)
        ensures
            r == field_flag_bit(*self),
    {
        match self {
            FieldAccessFlag::Public => 0x0001,
            FieldAccessFlag::Private => 0x0002,
            FieldAccessFlag::Protected => 0x0004,
            FieldAccessFlag::Static => 0x0008,
            FieldAccessFlag::Final => 0x0010,
            FieldAccessFlag::Volatile => 0x0040,
            FieldAccessFlag::Transient => 0x0080,
            FieldAccessFlag::Synthetic => 0x1000,
            FieldAccessFlag::Annotation => 0x2000,
            FieldAccessFlag::Enum => 0x4000,
        }
    }

    /// Whether this flag is set in a raw `access_flags` mask.
    pub fn is_set_in(&self, mask: u16) -> (r: bool)
        ensures
            r == (mask & field_flag_bit(*self) != 0),
    {
        mask & self.bit() != 0
    }
}

impl MethodAccessFlag {
    pub fn bit(&self) -> (r: u16)
        ensures
            r == method_flag_bit(*self),
    {
        match self {
            MethodAccessFlag::Public => 0x0001,
            MethodAccessFlag::Private => 0x0002,
            MethodAccessFlag::Protected => 0x0004,
            MethodAccessFlag::Static => 0x0008,
            MethodAccessFlag::Final => 0x0010,
            MethodAccessFlag::Synchronized => 0x0020,
            MethodAccessFlag::Bridge => 0x0040,
            MethodAccessFlag::Varargs => 0x0080,
            MethodAccessFlag::Native => 0x0100,
            MethodAccessFlag::Abstract => 0x0400,
            MethodAccessFlag::Strict => 0x0800,
            MethodAccessFlag::Synthetic => 0x1000,
        }
    }

    /// Whether this flag is set in a raw `access_flags` mask.
    pub fn is_set_in(&self, mask: u16) -> (r: bool)
        ensures
            r == (mask & method_flag_bit(*self) != 0),
    {
        mask & self.bit() != 0
    }
}

/// A field of a class; `access_flags` is the raw mask of `FieldAccessFlag` bits.
#[derive(Debug, Default)]
pub struct ClassField {
    pub access_flags: u16,
    pub name: String,
    pub descriptor: TypeSignature,
    pub attributes: Vec<ClassAttribute>,
}

/// A method of a class; `access_flags` is the raw mask of `MethodAccessFlag` bits.
#[derive(Debug, Default)]
pub struct ClassMethod {
    pub access_flags: u16,
    pub name: String,
    pub descriptor: MethodSignature,
    pub attributes: Vec<ClassAttribute>,
}

#[derive(Debug)]
pub enum ClassAttribute {
    Code(Code),
    LineNumberTable(Vec<SourceLineNumber>),
    SourceFile(String),
    Exceptions(Vec<u16>),
    ConstantValue(ClassConstant),
    BootstrapMethods(Vec<BootstrapMethod>),
    NotImplemented,
}

#[derive(Debug, Default)]
pub struct Code {
    pub max_stack: u16,
    pub max_locals: u16,
    pub code: Vec<u8>,
    pub exception_table: Vec<ExceptionTable>,
    pub attributes: Vec<ClassAttribute>,
}

#[derive(Clone, Debug, Default)]
pub struct ExceptionTable {
    pub start_pc: u16,
    pub end_pc: u16,
    pub handler_pc: u16,
    /// The class of exceptions this handler catches; `None` catches every exception.
    pub catch_type: Option<String>,
}

#[derive(Clone, Copy, Debug, PartialEq, Eq, Structural, Default)]
pub struct SourceLineNumber {
    pub start_pc: u16,
    pub line_number: u16,
}

#[derive(Clone, Debug, Default)]
pub struct BootstrapMethod {
    pub method_ref: u16,
    pub arguments: Vec<u16>,
}

/// A decoded class file; `access_flags` is the raw mask of `ClassAccessFlag` bits.
#[derive(Debug, Default)]
pub struct JvmClass {
    pub version: ClassVersion,
    pub constants: Vec<ClassConstant>,
    pub access_flags: u16,
    pub this_class: String,
    pub super_class: Option<String>,
    pub interfaces: Vec<String>,
    pub fields: Vec<ClassField>,
    pub methods: Vec<ClassMethod>,
    pub attributes: Vec<ClassAttribute>,
}

#[derive(Debug)]
pub enum TypeSignature {
    Void,
    Boolean,
    Byte,
    Char,
    Short,
    Int,
    Long,
    Float,
    Double,
    Class(String),
    Array(Box<TypeSignature>),
}

impl Clone for TypeSignature {
    fn clone(&self) -> (r: TypeSignature)
        ensures
            r == *self,
        decreases self,
    {
        match self {
            TypeSignature::Void => TypeSignature::Void,
            TypeSignature::Boolean => TypeSignature::Boolean,
            TypeSignature::Byte => TypeSignature::Byte,
            TypeSignature::Char => TypeSignature::Char,
            TypeSignature::Short => TypeSignature::Short,
            TypeSignature::Int => TypeSignature::Int,
            TypeSignature::Long => TypeSignature::Long,
            TypeSignature::Float => TypeSignature::Float,
            TypeSignature::Double => TypeSignature::Double,
            TypeSignature::Class(name) => TypeSignature::Class(name.clone()),
            TypeSignature::Array(inner) => {
                let c = (**inner).clone();
                TypeSignature::Array(Box::new(c))
            },
        }
    }
}

impl Default for TypeSignature {
    fn default() -> (r: TypeSignature)
        ensures
            r is Void,
    {
        TypeSignature::Void
    }
}

#[derive(Clone, Debug, Default)]
pub struct MethodSignature {
    pub parameters: Vec<TypeSignature>,
    pub return_type: TypeSignature,
}

} // verus!
