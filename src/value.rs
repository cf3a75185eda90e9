use vstd::prelude::*;

verus! {

/// A value in a local-variable slot or on the operand stack. Floating-point
/// values are held as their IEEE-754 bit patterns. `Long` and `Double` take
/// two slots: the value, then a `Top` placeholder for its upper half.
#[derive(Clone, Copy, Debug, PartialEq, Eq, Structural)]
pub enum VmValue {
    Int(i32),
    Float(u32),
    Long(i64),
    Double(u64),
    Null,
    Reference(usize),
    ReturnAddress(u16),
    Top,
}

/// A fault of the interpreter itself, not of the Java program.
#[derive(Clone, Copy, Debug, PartialEq, Eq, Structural)]
pub enum VmError {
    StackOverflow,
    StackUnderflow,
    TypeMismatch,
    LocalOutOfRange,
    PcOutOfRange,
    BadConstant,
    BadHeapReference,
    ClassNotLoaded,
    MissingField,
    UnknownOpcode(u8),
    MissingMethod,
    ForeignMethod,
}

/// A Java exception that the interpreter raises itself.
#[derive(Clone, Copy, Debug, PartialEq, Eq, Structural)]
pub enum JavaException {
    NullPointer,
    ArrayIndexOutOfBounds,
    Arithmetic,
    NoClassDefFound,
}

/// Why an instruction did not complete.
#[derive(Clone, Debug)]
pub enum Trap {
    /// The program raised an exception that unwinds the frame stack.
    Throw(JavaException),
    /// The class must be initialized before the instruction can run; the
    /// instruction is retried once initialization has been driven.
    NeedsInitialization(String),
    /// The interpreter met a state it cannot handle.
    Bug(VmError),
}

} // verus!
