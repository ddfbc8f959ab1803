use vstd::prelude::*;
use crate::error::VmError;
use crate::value::jvm_value;

verus! {

/// Number of slots in a local variable table.
pub const LOCAL_SLOTS: usize = 256;

/// A per-call register file of 256 values addressed by a byte index. Every
/// slot starts as the integer zero. The table is fixed scratch space: it is
/// not bounded by the number of locals a method declares.
pub struct interp_local_vars {
    lvt: [jvm_value; 256],
}

impl View for interp_local_vars {
    type V = Seq<jvm_value>;

    closed spec fn view(&self) -> Seq<jvm_value> {
        self.lvt@
    }
}

impl interp_local_vars {
    /// A table of 256 slots that all hold the integer zero.
    pub fn of() -> (r: interp_local_vars)
        ensures
            r@.len() == LOCAL_SLOTS,
            forall|i: int| 0 <= i < LOCAL_SLOTS ==> r@[i] == (jvm_value::Int { val: 0 }),
    {
        interp_local_vars { lvt: [jvm_value::Int { val: 0 }; 256] }
    }

    /// A copy of the value in slot `idx`.
    pub fn load(&self, idx: u8) -> (r: jvm_value)
        ensures
            self@.len() == LOCAL_SLOTS,
            r == self@[idx as int],
    {
        self.lvt[idx as usize]
    }

    /// Overwrites slot `idx` with `val`.
    pub fn store(&mut self, idx: u8, val: jvm_value)
        ensures
            final(self)@ == old(self)@.update(idx as int, val),
    {
        self.lvt[idx as usize] = val;
    }

    /// Adds one to the integer in slot `idx`, wrapping around on overflow.
    /// The increment is always one: `incr` is accepted and not applied, and a
    /// caller that needs another step stores the sum itself. A slot that does
    /// not hold an integer fails and is left as it was.
    pub fn iinc(&mut self, idx: u8, incr: u8) -> (r: Result<(), VmError>)
        ensures
            match old(self)@[idx as int] {
                jvm_value::Int { val } => r is Ok && final(self)@ == old(self)@.update(
                    idx as int,
                    jvm_value::Int { val: val.wrapping_add(1) },
                ),
                _ => r == Err::<(), VmError>(VmError::TypeMismatch) && final(self)@ == old(self)@,
            },
    {
        match self.lvt[idx as usize] {
            jvm_value::Int { val } => {
                self.lvt[idx as usize] = jvm_value::Int { val: val.wrapping_add(1) };
                Ok(())
            },
            _ => Err(VmError::TypeMismatch),
        }
    }
}

/// A load from a slot returns what the last store into that slot put there,
/// and a store leaves every other slot as it was.
pub proof fn lemma_load_after_store(s: Seq<jvm_value>, idx: u8, other: u8, val: jvm_value)
    requires
        s.len() == LOCAL_SLOTS,
    ensures
        s.update(idx as int, val)[idx as int] == val,
        other != idx ==> s.update(idx as int, val)[other as int] == s[other as int],
{
}

/// An increment raises an integer slot by exactly one, whatever amount was
/// requested, unless the slot held the largest integer.
pub proof fn lemma_iinc_adds_one(v: i32)
    requires
        v < i32::MAX,
    ensures
        v.wrapping_add(1) == v + 1,
{
}

} // verus!
