use vstd::prelude::*;
use crate::error::VmError;
use crate::klass::ot_field;

verus! {

/// Handle of a heap-resident object: a mark word and a class identifier.
/// The all-zero handle is the null reference.
#[derive(Clone, Copy, Debug, PartialEq, Eq, Structural)]
pub struct ot_obj {
    mark: u64,
    klassid: u32,
}

impl ot_obj {
    pub closed spec fn spec_mark(self) -> u64 {
        self.mark
    }

    pub closed spec fn spec_klassid(self) -> u32 {
        self.klassid
    }

    /// The handle is null exactly when both of its words are zero.
    pub open spec fn spec_is_null(self) -> bool {
        self.spec_mark() == 0 && self.spec_klassid() == 0
    }

    /// A handle with the given mark word and class identifier.
    pub fn of(mark: u64, klassid: u32) -> (r: ot_obj)
        ensures
            r.spec_mark() == mark,
            r.spec_klassid() == klassid,
    {
        ot_obj { mark, klassid }
    }

    /// The canonical null handle.
    pub fn get_null() -> (r: ot_obj)
        ensures
            r.spec_mark() == 0,
            r.spec_klassid() == 0,
    {
        ot_obj { mark: 0u64, klassid: 0u32 }
    }

    pub fn is_null(&self) -> (r: bool)
        ensures
            r == self.spec_is_null(),
    {
        self.mark == 0u64 && self.klassid == 0u32
    }

    pub fn get_mark(&self) -> (r: u64)
        ensures
            r == self.spec_mark(),
    {
        self.mark
    }

    pub fn get_klassid(&self) -> (r: u32)
        ensures
            r == self.spec_klassid(),
    {
        self.klassid
    }

    /// Field storage does not exist yet, so no field can be written.
    pub fn put_field(&self, _f: &ot_field, _val: jvm_value) -> (r: Result<(), VmError>)
        ensures
            r == Err::<(), VmError>(VmError::NotImplemented),
    {
        Err(VmError::NotImplemented)
    }
}

/// A runtime value: the unit of computation on the operand stack and in the
/// local variable table. Each variant carries its native-width payload; the
/// floating-point variants carry their IEEE-754 bit pattern.
#[derive(Clone, Copy, Debug, PartialEq, Eq, Structural)]
#[allow(inconsistent_fields)]
pub enum jvm_value {
    Boolean { val: bool },
    Byte { val: i8 },
    Short { val: i16 },
    Int { val: i32 },
    Long { val: i64 },
    /// Bit pattern of a 32-bit float.
    Float { val: u32 },
    /// Bit pattern of a 64-bit float.
    Double { val: u64 },
    Char { val: char },
    ObjRef { val: ot_obj },
}

impl jvm_value {
    /// The descriptor letter of the value's kind.
    pub open spec fn spec_name(self) -> char {
        match self {
            jvm_value::Boolean { .. } => 'Z',
            jvm_value::Byte { .. } => 'B',
            jvm_value::Short { .. } => 'S',
            jvm_value::Int { .. } => 'I',
            jvm_value::Long { .. } => 'J',
            jvm_value::Float { .. } => 'F',
            jvm_value::Double { .. } => 'D',
            jvm_value::Char { .. } => 'C',
            jvm_value::ObjRef { .. } => 'A',
        }
    }

    pub fn name(&self) -> (r: char)
        ensures
            r == self.spec_name(),
    {
        match *self {
            jvm_value::Boolean { .. } => 'Z',
            jvm_value::Byte { .. } => 'B',
            jvm_value::Short { .. } => 'S',
            jvm_value::Int { .. } => 'I',
            jvm_value::Long { .. } => 'J',
            jvm_value::Float { .. } => 'F',
            jvm_value::Double { .. } => 'D',
            jvm_value::Char { .. } => 'C',
            jvm_value::ObjRef { .. } => 'A',
        }
    }
}

/// A handle reports null exactly when it is the all-zero handle: the handle
/// that `get_null` gives reports null, and one with a non-zero mark word or
/// class identifier does not.
pub proof fn lemma_null_handle(h: ot_obj)
    ensures
        (h.spec_mark() == 0 && h.spec_klassid() == 0) ==> h.spec_is_null(),
        (h.spec_mark() != 0 || h.spec_klassid() != 0) ==> !h.spec_is_null(),
{
}

} // verus!
