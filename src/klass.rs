use vstd::prelude::*;
use crate::constant_pool::{cp_attr, cp_entry, cp_text, pool_text};
use crate::error::VmError;
use crate::value::jvm_value;

verus! {

pub const ACC_PUBLIC: u16 = 0x0001;
pub const ACC_PRIVATE: u16 = 0x0002;
pub const ACC_PROTECTED: u16 = 0x0004;
pub const ACC_STATIC: u16 = 0x0008;
pub const ACC_FINAL: u16 = 0x0010;
pub const ACC_SUPER: u16 = 0x0020;
pub const ACC_VOLATILE: u16 = 0x0040;
pub const ACC_TRANSIENT: u16 = 0x0080;
pub const ACC_INTERFACE: u16 = 0x0200;
pub const ACC_ABSTRACT: u16 = 0x0400;
pub const ACC_SYNTHETIC: u16 = 0x1000;
pub const ACC_ANNOTATION: u16 = 0x2000;
pub const ACC_ENUM: u16 = 0x4000;
pub const ACC_SYNCHRONIZED: u16 = 0x0020;
pub const ACC_BRIDGE: u16 = 0x0040;
pub const ACC_VARARGS: u16 = 0x0080;
pub const ACC_NATIVE: u16 = 0x0100;
pub const ACC_ABSTRACT_M: u16 = 0x0400;
pub const ACC_STRICT: u16 = 0x0800;

/// Stores `attr` at position `index` of `attrs`: an existing position is
/// overwritten, the position just past the end appends, and any later
/// position fails.
fn put_attr(attrs: &mut Vec<cp_attr>, index: u16, attr: cp_attr) -> (r: Result<(), VmError>)
    ensures
        index < old(attrs)@.len() ==> r is Ok && final(attrs)@ == old(attrs)@.update(
            index as int,
            attr,
        ),
        index == old(attrs)@.len() ==> r is Ok && final(attrs)@ == old(attrs)@.push(attr),
        index > old(attrs)@.len() ==> r == Err::<(), VmError>(VmError::IndexOutOfRange)
            && final(attrs)@ == old(attrs)@,
{
    let i = index as usize;
    if i < attrs.len() {
        attrs.set(i, attr);
        Ok(())
    } else if i == attrs.len() {
        attrs.push(attr);
        Ok(())
    } else {
        Err(VmError::IndexOutOfRange)
    }
}

/// What a method's metadata holds.
pub struct MethodModel {
    pub klass_name: Seq<char>,
    pub flags: u16,
    pub name: Seq<char>,
    /// `name:descriptor`, the key of the method within its class.
    pub name_desc: Seq<char>,
    pub name_idx: u16,
    pub desc_idx: u16,
    pub code: Seq<u8>,
    pub attrs: Seq<cp_attr>,
}

/// Metadata of a method: owning class, flags, name, `name:descriptor` key,
/// instruction bytes (attached after the structural metadata) and attributes.
#[derive(Debug)]
pub struct ot_method {
    klass_name: String,
    flags: u16,
    name: String,
    name_desc: String,
    name_idx: u16,
    desc_idx: u16,
    code: Vec<u8>,
    attrs: Vec<cp_attr>,
}

impl View for ot_method {
    type V = MethodModel;

    closed spec fn view(&self) -> MethodModel {
        MethodModel {
            klass_name: self.klass_name@,
            flags: self.flags,
            name: self.name@,
            name_desc: self.name_desc@,
            name_idx: self.name_idx,
            desc_idx: self.desc_idx,
            code: self.code@,
            attrs: self.attrs@,
        }
    }
}

impl Clone for ot_method {
    fn clone(&self) -> (r: ot_method)
        ensures
            r@ == self@,
    {
        let code = self.code.clone();
        let attrs = self.attrs.clone();
        proof {
            assert(code@ =~= self.code@);
            assert(attrs@ =~= self.attrs@);
        }
        ot_method {
            klass_name: self.klass_name.clone(),
            flags: self.flags,
            name: self.name.clone(),
            name_desc: self.name_desc.clone(),
            name_idx: self.name_idx,
            desc_idx: self.desc_idx,
            code,
            attrs,
        }
    }
}

impl ot_method {
    /// Structural metadata of a method, with no instructions or attributes yet.
    pub fn of(
        klass_name: String,
        name: String,
        desc: String,
        flags: u16,
        name_idx: u16,
        desc_idx: u16,
    ) -> (r: ot_method)
        ensures
            r@.klass_name == klass_name@,
            r@.flags == flags,
            r@.name == name@,
            r@.name_desc == name@ + seq![':'] + desc@,
            r@.name_idx == name_idx,
            r@.desc_idx == desc_idx,
            r@.code == Seq::<u8>::empty(),
            r@.attrs == Seq::<cp_attr>::empty(),
    {
        proof {
            reveal_strlit(":");
        }
        let mut name_desc = name.clone();
        name_desc.append(":");
        name_desc.append(desc.as_str());
        ot_method {
            klass_name,
            flags,
            name,
            name_desc,
            name_idx,
            desc_idx,
            code: Vec::new(),
            attrs: Vec::new(),
        }
    }

    /// Stores attribute `attr` at position `index` (see `put_attr`).
    pub fn set_attr(&mut self, index: u16, attr: cp_attr) -> (r: Result<(), VmError>)
        ensures
            index < old(self)@.attrs.len() ==> r is Ok && final(self)@ == (MethodModel {
                attrs: old(self)@.attrs.update(index as int, attr),
                ..old(self)@
            }),
            index == old(self)@.attrs.len() ==> r is Ok && final(self)@ == (MethodModel {
                attrs: old(self)@.attrs.push(attr),
                ..old(self)@
            }),
            index > old(self)@.attrs.len() ==> r == Err::<(), VmError>(VmError::IndexOutOfRange)
                && final(self)@ == old(self)@,
    {
        put_attr(&mut self.attrs, index, attr)
    }

    /// Attaches the method's instruction bytes.
    pub fn set_code(&mut self, code: Vec<u8>)
        ensures
            final(self)@ == (MethodModel { code: code@, ..old(self)@ }),
    {
        self.code = code;
    }

    pub fn get_code(&self) -> (r: Vec<u8>)
        ensures
            r@ == self@.code,
    {
        let r = self.code.clone();
        proof {
            assert(r@ =~= self.code@);
        }
        r
    }

    pub fn get_klass_name(&self) -> (r: String)
        ensures
            r@ == self@.klass_name,
    {
        self.klass_name.clone()
    }

    /// The method's `name:descriptor` key.
    pub fn get_desc(&self) -> (r: String)
        ensures
            r@ == self@.name_desc,
    {
        self.name_desc.clone()
    }

    /// The fully qualified key `class.name:descriptor`.
    pub fn get_fq_name_desc(&self) -> (r: String)
        ensures
            r@ == self@.klass_name + seq!['.'] + self@.name_desc,
    {
        proof {
            reveal_strlit(".");
        }
        let mut s = self.klass_name.clone();
        s.append(".");
        s.append(self.name_desc.as_str());
        s
    }

    pub fn get_flags(&self) -> (r: u16)
        ensures
            r == self@.flags,
    {
        self.flags
    }
}

/// What a field's metadata holds.
pub struct FieldModel {
    pub class_name: Seq<char>,
    pub flags: u16,
    pub name_idx: u16,
    pub desc_idx: u16,
    pub name: Seq<char>,
    pub attrs: Seq<cp_attr>,
}

/// Metadata of a field: owning class, flags, name and descriptor indices,
/// name and attributes. It has no storage slot.
#[derive(Debug)]
pub struct ot_field {
    class_name: String,
    flags: u16,
    name_idx: u16,
    desc_idx: u16,
    name: String,
    attrs: Vec<cp_attr>,
}

impl View for ot_field {
    type V = FieldModel;

    closed spec fn view(&self) -> FieldModel {
        FieldModel {
            class_name: self.class_name@,
            flags: self.flags,
            name_idx: self.name_idx,
            desc_idx: self.desc_idx,
            name: self.name@,
            attrs: self.attrs@,
        }
    }
}

impl ot_field {
    pub fn of(klass_name: String, field_name: String, field_flags: u16, name: u16, desc: u16) -> (r:
        ot_field)
        ensures
            r@.class_name == klass_name@,
            r@.flags == field_flags,
            r@.name_idx == name,
            r@.desc_idx == desc,
            r@.name == field_name@,
            r@.attrs == Seq::<cp_attr>::empty(),
    {
        ot_field {
            class_name: klass_name,
            flags: field_flags,
            name_idx: name,
            desc_idx: desc,
            name: field_name,
            attrs: Vec::new(),
        }
    }

    /// Stores attribute `attr` at position `index` (see `put_attr`).
    pub fn set_attr(&mut self, index: u16, attr: cp_attr) -> (r: Result<(), VmError>)
        ensures
            index < old(self)@.attrs.len() ==> r is Ok && final(self)@ == (FieldModel {
                attrs: old(self)@.attrs.update(index as int, attr),
                ..old(self)@
            }),
            index == old(self)@.attrs.len() ==> r is Ok && final(self)@ == (FieldModel {
                attrs: old(self)@.attrs.push(attr),
                ..old(self)@
            }),
            index > old(self)@.attrs.len() ==> r == Err::<(), VmError>(VmError::IndexOutOfRange)
                && final(self)@ == old(self)@,
    {
        put_attr(&mut self.attrs, index, attr)
    }

    pub fn get_name(&self) -> (r: String)
        ensures
            r@ == self@.name,
    {
        self.name.clone()
    }

    pub fn get_klass_name(&self) -> (r: String)
        ensures
            r@ == self@.class_name,
    {
        self.class_name.clone()
    }
}

/// `i` is the last position in `ms` of a method with key `key`.
pub open spec fn is_last_with_key(ms: Seq<MethodModel>, key: Seq<char>, i: int) -> bool {
    &&& 0 <= i < ms.len()
    &&& ms[i].name_desc == key
    &&& forall|k: int| i < k < ms.len() ==> ms[k].name_desc != key
}

/// `m` is the method of `ms` that a lookup of `key` answers with: the last
/// one with that key.
pub open spec fn is_answer(ms: Seq<MethodModel>, key: Seq<char>, m: MethodModel) -> bool {
    exists|i: int| is_last_with_key(ms, key, i) && m == #[trigger] ms[i]
}

/// Some method in `ms` has key `key`.
pub open spec fn has_key(ms: Seq<MethodModel>, key: Seq<char>) -> bool {
    exists|i: int| 0 <= i < ms.len() && #[trigger] ms[i].name_desc == key
}

/// What a class's metadata holds.
pub struct KlassModel {
    pub name: Seq<char>,
    pub super_name: Seq<char>,
    pub flags: u16,
    pub cp: Seq<cp_entry>,
    pub methods: Seq<MethodModel>,
}

/// Metadata of a loaded class: name, superclass name, flags, constant pool,
/// ordered method list, and an index from each `name:descriptor` key to the
/// position of the method with that key, built once from the method list.
/// Where two methods share a key the later one is indexed.
#[derive(Debug)]
pub struct ot_klass {
    name: String,
    super_name: String,
    flags: u16,
    cp_entries: Vec<cp_entry>,
    methods: Vec<ot_method>,
    name_desc_lookup: Vec<(String, usize)>,
}

/// `index` agrees with the first `n` methods of `ms`: its keys are distinct,
/// each leads to the last of those methods with that key, and every key of
/// those methods is in it.
pub open spec fn index_agrees(index: Seq<(String, usize)>, ms: Seq<MethodModel>, n: int) -> bool {
    &&& 0 <= n <= ms.len()
    &&& forall|j: int| 0 <= j < index.len() ==> #[trigger] is_last_with_key(
        ms.subrange(0, n),
        index[j].0@,
        index[j].1 as int,
    )
    &&& forall|j1: int, j2: int|
        0 <= j1 < index.len() && 0 <= j2 < index.len() && j1 != j2 ==> #[trigger] index[j1].0@
            != #[trigger] index[j2].0@
    &&& forall|m: int|
        0 <= m < n ==> exists|j: int| 0 <= j < index.len() && #[trigger] index[j].0@ == (
        #[trigger] ms[m]).name_desc
}

impl View for ot_klass {
    type V = KlassModel;

    closed spec fn view(&self) -> KlassModel {
        KlassModel {
            name: self.name@,
            super_name: self.super_name@,
            flags: self.flags,
            cp: self.cp_entries@,
            methods: self.methods@.map_values(|m: ot_method| m@),
        }
    }
}

impl ot_klass {
    #[verifier::type_invariant]
    closed spec fn index_matches_methods(self) -> bool {
        index_agrees(self.name_desc_lookup@, self@.methods, self.methods@.len() as int)
    }

    /// Builds the index of `methods` by keys in one pass.
    fn index_methods(methods: &Vec<ot_method>) -> (r: Vec<(String, usize)>)
        ensures
            index_agrees(r@, methods@.map_values(|m: ot_method| m@), methods@.len() as int),
    {
        let ghost ms = methods@.map_values(|m: ot_method| m@);
        let mut index: Vec<(String, usize)> = Vec::new();
        let mut i: usize = 0;
        while i < methods.len()
            invariant
                0 <= i <= methods@.len(),
                ms == methods@.map_values(|m: ot_method| m@),
                index_agrees(index@, ms, i as int),
            decreases methods@.len() - i,
        {
            let key = methods[i].get_desc();
            let mut j: usize = 0;
            while j < index.len() && !(index[j].0 == key)
                invariant
                    0 <= j <= index@.len(),
                    forall|k: int| 0 <= k < j ==> index@[k].0@ != key@,
                decreases index@.len() - j,
            {
                j = j + 1;
            }
            let found = j < index.len();
            let ghost old_index = index@;
            let ghost before = ms.subrange(0, i as int);
            let ghost after = ms.subrange(0, i + 1);
            assert(key@ == ms[i as int].name_desc);
            if found {
                index.set(j, (key, i));
            } else {
                index.push((key, i));
            }
            let ghost slot: int = if found { j as int } else { old_index.len() as int };
            assert(index@[slot].0@ == key@ && index@[slot].1 == i);
            assert forall|q: int| 0 <= q < index@.len() && q != slot implies index@[q] == old_index[q]
                && old_index[q].0@ != key@ by {}
            assert forall|q: int| 0 <= q < index@.len() implies #[trigger] is_last_with_key(
                after,
                index@[q].0@,
                index@[q].1 as int,
            ) by {
                if q != slot {
                    assert(is_last_with_key(before, old_index[q].0@, old_index[q].1 as int));
                }
            }
            assert forall|m: int| 0 <= m < i + 1 implies exists|q: int|
                0 <= q < index@.len() && #[trigger] index@[q].0@ == (#[trigger] ms[m]).name_desc by {
                if m < i && ms[m].name_desc != key@ {
                    let q = choose|q: int|
                        0 <= q < old_index.len() && #[trigger] old_index[q].0@ == ms[m].name_desc;
                    assert(index@[q].0@ == ms[m].name_desc);
                } else {
                    assert(index@[slot].0@ == ms[m].name_desc);
                }
            }
            i = i + 1;
        }
        assert(ms.subrange(0, methods@.len() as int) =~= ms);
        index
    }

    /// A class from an already parsed constant pool and method list.
    pub fn of(
        klass_name: String,
        super_klass: String,
        flags: u16,
        cp_entries: &Vec<cp_entry>,
        methods: &Vec<ot_method>,
    ) -> (r: ot_klass)
        ensures
            r@.name == klass_name@,
            r@.super_name == super_klass@,
            r@.flags == flags,
            r@.cp == cp_entries@,
            r@.methods == methods@.map_values(|m: ot_method| m@),
    {
        let cp = cp_entries.clone();
        let ms = methods.clone();
        proof {
            assert(cp@ =~= cp_entries@);
            assert(ms@.map_values(|m: ot_method| m@) =~= methods@.map_values(|m: ot_method| m@));
        }
        let index = ot_klass::index_methods(&ms);
        ot_klass {
            name: klass_name,
            super_name: super_klass,
            flags,
            cp_entries: cp,
            methods: ms,
            name_desc_lookup: index,
        }
    }

    /// Static field storage does not exist yet, so no static field can be set.
    pub fn set_static_field(&self, _f: String, _vals: jvm_value) -> (r: Result<(), VmError>)
        ensures
            r == Err::<(), VmError>(VmError::NotImplemented),
    {
        Err(VmError::NotImplemented)
    }

    pub fn get_name(&self) -> (r: String)
        ensures
            r@ == self@.name,
    {
        self.name.clone()
    }

    pub fn get_super_name(&self) -> (r: String)
        ensures
            r@ == self@.super_name,
    {
        self.super_name.clone()
    }

    pub fn get_flags(&self) -> (r: u16)
        ensures
            r == self@.flags,
    {
        self.flags
    }

    /// A copy of the method list, in order.
    pub fn get_methods(&self) -> (r: Vec<ot_method>)
        ensures
            r@.map_values(|m: ot_method| m@) == self@.methods,
    {
        let r = self.methods.clone();
        proof {
            assert(r@.map_values(|m: ot_method| m@) =~= self@.methods);
        }
        r
    }

    /// The method with key `name_desc` (`name:descriptor`); where several
    /// have that key, the last of them.
    pub fn get_method_by_name_and_desc(&self, name_desc: String) -> (r: Result<&ot_method, VmError>)
        ensures
            has_key(self@.methods, name_desc@) <==> r is Ok,
            r matches Ok(m) ==> is_answer(self@.methods, name_desc@, m@),
            r is Err ==> r == Err::<&ot_method, VmError>(VmError::MethodNotFound),
    {
        proof {
            use_type_invariant(self);
            assert(self.methods@.subrange(0, self.methods@.len() as int).map_values(|m: ot_method| m@)
                =~= self@.methods);
            assert(self@.methods.subrange(0, self.methods@.len() as int) =~= self@.methods);
        }
        let mut j: usize = 0;
        while j < self.name_desc_lookup.len() && !(self.name_desc_lookup[j].0 == name_desc)
            invariant
                0 <= j <= self.name_desc_lookup@.len(),
                forall|k: int| 0 <= k < j ==> self.name_desc_lookup@[k].0@ != name_desc@,
            decreases self.name_desc_lookup@.len() - j,
        {
            j = j + 1;
        }
        if j < self.name_desc_lookup.len() {
            let i = self.name_desc_lookup[j].1;
            proof {
                assert(is_last_with_key(self@.methods, name_desc@, i as int));
            }
            Ok(&self.methods[i])
        } else {
            proof {
                assert forall|m: int| 0 <= m < self@.methods.len() implies #[trigger] self@.methods[m].name_desc
                    != name_desc@ by {
                    let q = choose|q: int|
                        0 <= q < self.name_desc_lookup@.len() && #[trigger] self.name_desc_lookup@[q].0@
                            == (#[trigger] self@.methods[m]).name_desc;
                }
            }
            Err(VmError::MethodNotFound)
        }
    }

    /// Entry `cp_idx` of the class's own constant pool.
    pub fn lookup_cp(&self, cp_idx: u16) -> (r: Result<cp_entry, VmError>)
        ensures
            cp_idx < self@.cp.len() ==> r == Ok::<cp_entry, VmError>(self@.cp[cp_idx as int]),
            cp_idx >= self@.cp.len() ==> r == Err::<cp_entry, VmError>(
                VmError::InvalidConstantPoolIndex,
            ),
    {
        if (cp_idx as usize) < self.cp_entries.len() {
            Ok(self.cp_entries[cp_idx as usize].clone())
        } else {
            Err(VmError::InvalidConstantPoolIndex)
        }
    }

    /// The debug text of constant-pool entry `i` (see `cp_text`). An entry
    /// whose chain of indices comes back to itself fails instead of
    /// recursing without end.
    pub fn cp_as_string(&self, i: u16) -> (r: Result<String, VmError>)
        ensures
            match cp_text(self@.cp, i as int, self@.cp.len()) {
                Ok(t) => r matches Ok(s) && s@ == t,
                Err(e) => r == Err::<String, VmError>(e),
            },
    {
        pool_text(&self.cp_entries, i, self.cp_entries.len())
    }
}

/// Splits a `name:descriptor` key at its first `:` into the name and the
/// descriptor; a text without `:` has no such split.
pub fn split_name_desc(name_desc: String) -> (r: Option<(String, String)>)
    ensures
        r is None <==> !name_desc@.contains(':'),
        r matches Some((n, d)) ==> n@ + seq![':'] + d@ == name_desc@ && !n@.contains(':'),
{
    let s = name_desc.as_str();
    let len = s.unicode_len();
    let mut k: usize = 0;
    while k < len && s.get_char(k) != ':'
        invariant
            len == s@.len(),
            s@ == name_desc@,
            0 <= k <= len,
            forall|q: int| 0 <= q < k ==> s@[q] != ':',
        decreases len - k,
    {
        k = k + 1;
    }
    if k == len {
        proof {
            assert forall|q: int| 0 <= q < s@.len() implies s@[q] != ':' by {}
        }
        None
    } else {
        let n = s.substring_char(0, k).to_owned();
        let d = s.substring_char(k + 1, len).to_owned();
        proof {
            assert(n@ + seq![':'] + d@ =~= name_desc@);
            assert forall|q: int| 0 <= q < n@.len() implies n@[q] != ':' by {}
        }
        Some((n, d))
    }
}

/// Splitting the key that `ot_method::of` builds from a name without `:`
/// and any descriptor gives back that name and that descriptor.
pub proof fn lemma_split_key(name: Seq<char>, desc: Seq<char>, n: Seq<char>, d: Seq<char>)
    requires
        !name.contains(':'),
        !n.contains(':'),
        n + seq![':'] + d == name + seq![':'] + desc,
    ensures
        n == name,
        d == desc,
{
    let whole = name + seq![':'] + desc;
    if n.len() < name.len() {
        assert(whole[n.len() as int] == ':');
        assert(name[n.len() as int] == whole[n.len() as int]);
    } else if n.len() > name.len() {
        assert(whole[name.len() as int] == ':');
        assert(n[name.len() as int] == (n + seq![':'] + d)[name.len() as int]);
    }
    assert(n =~= whole.subrange(0, n.len() as int));
    assert(name =~= whole.subrange(0, name.len() as int));
    assert(d =~= whole.subrange(n.len() as int + 1, whole.len() as int));
    assert(desc =~= whole.subrange(name.len() as int + 1, whole.len() as int));
}

} // verus!
