use vstd::prelude::*;

verus! {

/// Every failure of the runtime core. None of them is transient: the
/// execution driver stops on any of them.
#[derive(Clone, Copy, Debug, PartialEq, Eq, Structural)]
pub enum VmError {
    /// A value was popped from an empty operand stack.
    StackUnderflow,
    /// An operand was not of the primitive kind the instruction needs.
    TypeMismatch,
    /// A constant-pool index lies outside the owning class's pool.
    InvalidConstantPoolIndex,
    /// A constant-pool entry of a kind that cannot be rendered as text.
    UnsupportedConstantKind,
    /// A constant-pool entry refers back to itself through a chain of indices.
    CyclicConstantPoolEntry,
    /// No method with the requested `name:descriptor` key.
    MethodNotFound,
    /// No class of that name is registered.
    ClassNotFound,
    /// An index beyond the end of a table that grows one entry at a time.
    IndexOutOfRange,
    /// An integer division or remainder by zero.
    DivisionByZero,
    /// The operation has no storage model yet.
    NotImplemented,
}

} // verus!
