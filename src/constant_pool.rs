use vstd::prelude::*;
use crate::error::VmError;

verus! {

pub const CP_UTF8: u8 = 1;
pub const CP_INTEGER: u8 = 3;
pub const CP_FLOAT: u8 = 4;
pub const CP_LONG: u8 = 5;
pub const CP_DOUBLE: u8 = 6;
pub const CP_CLASS: u8 = 7;
pub const CP_STRING: u8 = 8;
pub const CP_FIELDREF: u8 = 9;
pub const CP_METHODREF: u8 = 10;
pub const CP_INTERFACE_METHODREF: u8 = 11;
pub const CP_NAMEANDTYPE: u8 = 12;
pub const CP_METHODHANDLE: u8 = 15;
pub const CP_METHODTYPE: u8 = 16;
pub const CP_INVOKEDYNAMIC: u8 = 18;

/// An entry of a class's constant pool. Indices address the owning class's
/// own pool. The floating-point entries hold their IEEE-754 bit pattern.
#[derive(Debug, PartialEq, Eq)]
#[allow(inconsistent_fields)]
pub enum cp_entry {
    utf8 { val: String },
    integer { val: i32 },
    float { val: u32 },
    long { val: i64 },
    double { val: u64 },
    class { idx: u16 },
    string { idx: u16 },
    fieldref { clz_idx: u16, nt_idx: u16 },
    methodref { clz_idx: u16, nt_idx: u16 },
    interface_methodref { clz_idx: u16, nt_idx: u16 },
    name_and_type { name_idx: u16, type_idx: u16 },
}

impl Clone for cp_entry {
    fn clone(&self) -> (r: cp_entry)
        ensures
            r == *self,
    {
        match self {
            cp_entry::utf8 { val } => cp_entry::utf8 { val: val.clone() },
            cp_entry::integer { val } => cp_entry::integer { val: *val },
            cp_entry::float { val } => cp_entry::float { val: *val },
            cp_entry::long { val } => cp_entry::long { val: *val },
            cp_entry::double { val } => cp_entry::double { val: *val },
            cp_entry::class { idx } => cp_entry::class { idx: *idx },
            cp_entry::string { idx } => cp_entry::string { idx: *idx },
            cp_entry::fieldref { clz_idx, nt_idx } => cp_entry::fieldref {
                clz_idx: *clz_idx,
                nt_idx: *nt_idx,
            },
            cp_entry::methodref { clz_idx, nt_idx } => cp_entry::methodref {
                clz_idx: *clz_idx,
                nt_idx: *nt_idx,
            },
            cp_entry::interface_methodref { clz_idx, nt_idx } => cp_entry::interface_methodref {
                clz_idx: *clz_idx,
                nt_idx: *nt_idx,
            },
            cp_entry::name_and_type { name_idx, type_idx } => cp_entry::name_and_type {
                name_idx: *name_idx,
                type_idx: *type_idx,
            },
        }
    }
}

/// The text that joins the two parts of a reference of kind `cp_type`.
pub open spec fn spec_separator(cp_type: u8) -> Seq<char> {
    if cp_type == CP_FIELDREF || cp_type == CP_METHODREF {
        seq!['.']
    } else if cp_type == CP_NAMEANDTYPE {
        seq![':']
    } else {
        Seq::empty()
    }
}

impl cp_entry {
    /// `"."` between the class and the member of a field or method
    /// reference, `":"` between the name and the descriptor of a
    /// name-and-type pair, and nothing for any other kind.
    pub fn separator(cp_type: u8) -> (r: String)
        ensures
            r@ == spec_separator(cp_type),
    {
        proof {
            reveal_strlit(".");
            reveal_strlit(":");
            reveal_strlit("");
        }
        if cp_type == CP_FIELDREF || cp_type == CP_METHODREF {
            String::from_str(".")
        } else if cp_type == CP_NAMEANDTYPE {
            String::from_str(":")
        } else {
            String::from_str("")
        }
    }
}

/// An attribute, known by the constant-pool index of its name.
#[derive(Clone, Copy, Debug, PartialEq, Eq, Structural)]
pub struct cp_attr {
    pub name_idx: u16,
}

impl cp_attr {
    pub fn of(name_idx: u16) -> (r: cp_attr)
        ensures
            r.name_idx == name_idx,
    {
        cp_attr { name_idx }
    }
}

/// The debug text of entry `i` of `pool`, following at most `fuel` entries
/// along the chain of indices. A text entry is itself; a class entry is the
/// text its name index leads to; a method reference is its class, `.`, and
/// its name-and-type; a name-and-type pair is its name, `:`, and its
/// descriptor. Any other kind has no text. With `fuel` equal to the pool's
/// length the fuel runs out only where the chain revisits an entry.
pub open spec fn cp_text(pool: Seq<cp_entry>, i: int, fuel: nat) -> Result<Seq<char>, VmError>
    decreases fuel,
{
    if i < 0 || i >= pool.len() {
        Err(VmError::InvalidConstantPoolIndex)
    } else if fuel == 0 {
        Err(VmError::CyclicConstantPoolEntry)
    } else {
        match pool[i] {
            cp_entry::utf8 { val } => Ok(val@),
            cp_entry::class { idx } => cp_text(pool, idx as int, (fuel - 1) as nat),
            cp_entry::methodref { clz_idx, nt_idx } => match cp_text(
                pool,
                clz_idx as int,
                (fuel - 1) as nat,
            ) {
                Err(e) => Err(e),
                Ok(c) => match cp_text(pool, nt_idx as int, (fuel - 1) as nat) {
                    Err(e) => Err(e),
                    Ok(nt) => Ok(c + seq!['.'] + nt),
                },
            },
            cp_entry::name_and_type { name_idx, type_idx } => match cp_text(
                pool,
                name_idx as int,
                (fuel - 1) as nat,
            ) {
                Err(e) => Err(e),
                Ok(n) => match cp_text(pool, type_idx as int, (fuel - 1) as nat) {
                    Err(e) => Err(e),
                    Ok(t) => Ok(n + seq![':'] + t),
                },
            },
            _ => Err(VmError::UnsupportedConstantKind),
        }
    }
}

/// Computes `cp_text(pool@, i, fuel)`.
pub(crate) fn pool_text(pool: &Vec<cp_entry>, i: u16, fuel: usize) -> (r: Result<String, VmError>)
    ensures
        match cp_text(pool@, i as int, fuel as nat) {
            Ok(t) => r matches Ok(s) && s@ == t,
            Err(e) => r == Err::<String, VmError>(e),
        },
    decreases fuel,
{
    proof {
        reveal_strlit(".");
        reveal_strlit(":");
    }
    if i as usize >= pool.len() {
        return Err(VmError::InvalidConstantPoolIndex);
    }
    if fuel == 0 {
        return Err(VmError::CyclicConstantPoolEntry);
    }
    match &pool[i as usize] {
        cp_entry::utf8 { val } => Ok(val.clone()),
        cp_entry::class { idx } => pool_text(pool, *idx, fuel - 1),
        cp_entry::methodref { clz_idx, nt_idx } => {
            let mut s = pool_text(pool, *clz_idx, fuel - 1)?;
            let t = pool_text(pool, *nt_idx, fuel - 1)?;
            s.append(".");
            s.append(t.as_str());
            Ok(s)
        },
        cp_entry::name_and_type { name_idx, type_idx } => {
            let mut s = pool_text(pool, *name_idx, fuel - 1)?;
            let t = pool_text(pool, *type_idx, fuel - 1)?;
            s.append(":");
            s.append(t.as_str());
            Ok(s)
        },
        _ => Err(VmError::UnsupportedConstantKind),
    }
}

} // verus!
