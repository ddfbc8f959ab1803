use vstd::prelude::*;
use crate::error::VmError;
use crate::klass::{has_key, is_answer, is_last_with_key, KlassModel, ot_field, ot_klass, ot_method};
use crate::value::ot_obj;

verus! {

/// The classes of a registration sequence by name; a later registration of a
/// name replaces an earlier one.
pub open spec fn klass_map(ks: Seq<KlassModel>) -> Map<Seq<char>, KlassModel>
    decreases ks.len(),
{
    if ks.len() == 0 {
        Map::empty()
    } else {
        klass_map(ks.drop_last()).insert(ks.last().name, ks.last())
    }
}

/// `i` is the last position in `ks` of a class named `n`.
pub open spec fn is_last_named(ks: Seq<KlassModel>, n: Seq<char>, i: int) -> bool {
    &&& 0 <= i < ks.len()
    &&& ks[i].name == n
    &&& forall|k: int| i < k < ks.len() ==> ks[k].name != n
}

proof fn lemma_klass_map_last(ks: Seq<KlassModel>, n: Seq<char>, i: int)
    requires
        is_last_named(ks, n, i),
    ensures
        klass_map(ks).contains_key(n),
        klass_map(ks)[n] == ks[i],
    decreases ks.len(),
{
    if i < ks.len() - 1 {
        lemma_klass_map_last(ks.drop_last(), n, i);
    }
}

proof fn lemma_klass_map_absent(ks: Seq<KlassModel>, n: Seq<char>)
    requires
        forall|k: int| 0 <= k < ks.len() ==> ks[k].name != n,
    ensures
        !klass_map(ks).contains_key(n),
    decreases ks.len(),
{
    if ks.len() > 0 {
        lemma_klass_map_absent(ks.drop_last(), n);
    }
}

proof fn lemma_klass_map_replace(ks: Seq<KlassModel>, i: int, k: KlassModel)
    requires
        is_last_named(ks, k.name, i),
    ensures
        klass_map(ks.update(i, k)) == klass_map(ks).insert(k.name, k),
    decreases ks.len(),
{
    let front = ks.drop_last();
    if i == ks.len() - 1 {
        assert(ks.update(i, k).drop_last() =~= front);
        assert(klass_map(ks.update(i, k)) =~= klass_map(ks).insert(k.name, k));
    } else {
        lemma_klass_map_replace(front, i, k);
        assert(ks.update(i, k).drop_last() =~= front.update(i, k));
        assert(klass_map(ks.update(i, k)) =~= klass_map(ks).insert(k.name, k));
    }
}

/// The class whose methods answer a virtual call of `key` on class `c`:
/// `c` itself when it has a method with that key, else the answer for its
/// superclass, following at most `fuel` classes. A superclass chain longer
/// than the number of registrations has come back to a class it passed.
pub open spec fn virtual_owner(
    repo: Map<Seq<char>, KlassModel>,
    c: Seq<char>,
    key: Seq<char>,
    fuel: nat,
) -> Option<Seq<char>>
    decreases fuel,
{
    if fuel == 0 || !repo.contains_key(c) {
        None
    } else if has_key(repo[c].methods, key) {
        Some(c)
    } else {
        virtual_owner(repo, repo[c].super_name, key, (fuel - 1) as nat)
    }
}

/// Registering a class and then looking up its name finds that class: the
/// same name and the same methods, so the same method count.
pub proof fn lemma_add_then_lookup(repo: Map<Seq<char>, KlassModel>, k: KlassModel)
    ensures
        repo.insert(k.name, k).contains_key(k.name),
        repo.insert(k.name, k)[k.name] == k,
        repo.insert(k.name, k)[k.name].name == k.name,
        repo.insert(k.name, k)[k.name].methods.len() == k.methods.len(),
{
}

/// The classes of a running machine by name.
#[derive(Debug)]
pub struct shared_klass_repo {
    klass_lookup: Vec<ot_klass>,
}

impl View for shared_klass_repo {
    type V = Map<Seq<char>, KlassModel>;

    closed spec fn view(&self) -> Map<Seq<char>, KlassModel> {
        klass_map(self.models())
    }
}

impl shared_klass_repo {
    closed spec fn models(&self) -> Seq<KlassModel> {
        self.klass_lookup@.map_values(|k: ot_klass| k@)
    }

    /// How many registrations the repository keeps: at least the number of
    /// names it maps.
    pub closed spec fn klass_count(&self) -> nat {
        self.klass_lookup@.len()
    }

    /// An empty repository.
    pub fn new() -> (r: shared_klass_repo)
        ensures
            r@ == Map::<Seq<char>, KlassModel>::empty(),
    {
        shared_klass_repo { klass_lookup: Vec::new() }
    }

    /// Position of the last registration named `name`, if any.
    fn position_of(&self, name: &String) -> (r: Option<usize>)
        ensures
            r matches Some(i) ==> is_last_named(self.models(), name@, i as int),
            r is None ==> forall|k: int| 0 <= k < self.models().len() ==> self.models()[k].name != name@,
    {
        let mut i: usize = self.klass_lookup.len();
        while i > 0
            invariant
                0 <= i <= self.klass_lookup@.len(),
                forall|k: int| i <= k < self.models().len() ==> self.models()[k].name != name@,
            decreases i,
        {
            let n = self.klass_lookup[i - 1].get_name();
            if n == *name {
                return Some(i - 1);
            }
            i = i - 1;
        }
        None
    }

    /// Registers `k` under its name, replacing any class of that name.
    pub fn add_klass(&mut self, k: ot_klass)
        ensures
            final(self)@ == old(self)@.insert(k@.name, k@),
    {
        let n = k.get_name();
        match self.position_of(&n) {
            Some(i) => {
                proof {
                    lemma_klass_map_replace(self.models(), i as int, k@);
                    assert(self.models().update(i as int, k@) =~= self.klass_lookup@.update(
                        i as int,
                        k,
                    ).map_values(|k: ot_klass| k@));
                }
                self.klass_lookup.set(i, k);
            },
            None => {
                proof {
                    assert(self.models().push(k@).drop_last() =~= self.models());
                    assert(self.models().push(k@) =~= self.klass_lookup@.push(k).map_values(
                        |k: ot_klass| k@,
                    ));
                }
                self.klass_lookup.push(k);
            },
        }
    }

    /// The class registered under `klass_name`.
    pub fn lookup_klass(&self, klass_name: String) -> (r: Result<&ot_klass, VmError>)
        ensures
            self@.contains_key(klass_name@) ==> (r matches Ok(k) && k@ == self@[klass_name@]),
            !self@.contains_key(klass_name@) ==> r == Err::<&ot_klass, VmError>(
                VmError::ClassNotFound,
            ),
    {
        match self.position_of(&klass_name) {
            Some(i) => {
                proof {
                    lemma_klass_map_last(self.models(), klass_name@, i as int);
                }
                Ok(&self.klass_lookup[i])
            },
            None => {
                proof {
                    lemma_klass_map_absent(self.models(), klass_name@);
                }
                Err(VmError::ClassNotFound)
            },
        }
    }

    /// The method with key `fq_name_desc` (`name:descriptor`) of the class
    /// registered under `klass_name`.
    pub fn lookup_method_exact(&self, klass_name: &String, fq_name_desc: String) -> (r: Result<
        &ot_method,
        VmError,
    >)
        ensures
            !self@.contains_key(klass_name@) ==> r == Err::<&ot_method, VmError>(
                VmError::ClassNotFound,
            ),
            self@.contains_key(klass_name@) ==> {
                let ms = self@[klass_name@].methods;
                &&& has_key(ms, fq_name_desc@) <==> r is Ok
                &&& r matches Ok(m) ==> is_answer(ms, fq_name_desc@, m@)
                &&& r is Err ==> r == Err::<&ot_method, VmError>(VmError::MethodNotFound)
            },
    {
        let k = self.lookup_klass(klass_name.clone())?;
        k.get_method_by_name_and_desc(fq_name_desc)
    }

    /// Virtual dispatch: the method with key `name_desc` of the class
    /// registered under `klass_name` or, failing that, of the nearest
    /// superclass that has one.
    pub fn lookup_method_virtual(&self, klass_name: &String, name_desc: String) -> (r: Result<
        &ot_method,
        VmError,
    >)
        ensures
            !self@.contains_key(klass_name@) ==> r == Err::<&ot_method, VmError>(
                VmError::ClassNotFound,
            ),
            self@.contains_key(klass_name@) ==> match virtual_owner(
                self@,
                klass_name@,
                name_desc@,
                self.klass_count(),
            ) {
                Some(c) => r matches Ok(m) && is_answer(self@[c].methods, name_desc@, m@),
                None => r == Err::<&ot_method, VmError>(VmError::MethodNotFound),
            },
    {
        let mut cur = klass_name.clone();
        let mut fuel: usize = self.klass_lookup.len();
        let first = self.lookup_klass(cur.clone());
        if first.is_err() {
            return Err(VmError::ClassNotFound);
        }
        while fuel > 0
            invariant
                self@.contains_key(klass_name@),
                virtual_owner(self@, cur@, name_desc@, fuel as nat) == virtual_owner(
                    self@,
                    klass_name@,
                    name_desc@,
                    self.klass_count(),
                ),
            decreases fuel,
        {
            let k = match self.lookup_klass(cur.clone()) {
                Ok(k) => k,
                Err(_) => return Err(VmError::MethodNotFound),
            };
            match k.get_method_by_name_and_desc(name_desc.clone()) {
                Ok(m) => return Ok(m),
                Err(_) => {},
            }
            cur = k.get_super_name();
            fuel = fuel - 1;
        }
        Err(VmError::MethodNotFound)
    }

    /// Field slots are not modelled yet, so no field can be resolved.
    pub fn lookup_field(&self, _klass_name: String, _idx: u16) -> (r: Result<ot_field, VmError>)
        ensures
            r == Err::<ot_field, VmError>(VmError::NotImplemented),
    {
        Err(VmError::NotImplemented)
    }
}

impl ot_field {
    /// The class that owns the field, looked up in `repo`.
    pub fn get_klass<'a>(&self, repo: &'a shared_klass_repo) -> (r: Result<&'a ot_klass, VmError>)
        ensures
            repo@.contains_key(self@.class_name) ==> (r matches Ok(k) && k@
                == repo@[self@.class_name]),
            !repo@.contains_key(self@.class_name) ==> r == Err::<&ot_klass, VmError>(
                VmError::ClassNotFound,
            ),
    {
        repo.lookup_klass(self.get_klass_name())
    }
}

/// The object heap. Allocation is not modelled: every allocation yields the
/// null handle.
#[derive(Debug)]
pub struct shared_simple_heap {}

impl shared_simple_heap {
    pub fn allocate_obj(&self, _klass: &ot_klass) -> (r: ot_obj)
        ensures
            r.spec_is_null(),
    {
        ot_obj::get_null()
    }
}

/// The state an executing machine shares across calls: one class repository
/// and one heap.
pub struct vm_context {
    heap: shared_simple_heap,
    repo: shared_klass_repo,
}

impl vm_context {
    pub closed spec fn spec_repo(&self) -> shared_klass_repo {
        self.repo
    }

    /// A context with an empty repository.
    pub fn of() -> (r: vm_context)
        ensures
            r.spec_repo()@ == Map::<Seq<char>, KlassModel>::empty(),
    {
        vm_context { heap: shared_simple_heap {}, repo: shared_klass_repo::new() }
    }

    pub fn get_repo(&mut self) -> (r: &mut shared_klass_repo)
        ensures
            *r == old(self).spec_repo(),
            final(self).spec_repo() == *final(r),
    {
        &mut self.repo
    }

    pub fn get_heap(&mut self) -> (r: &mut shared_simple_heap)
        ensures
            final(self).spec_repo() == old(self).spec_repo(),
    {
        &mut self.heap
    }

    /// Allocates an instance of `klass` on the heap.
    pub fn allocate_obj(&mut self, klass: &ot_klass) -> (r: ot_obj)
        ensures
            r.spec_is_null(),
            final(self).spec_repo() == old(self).spec_repo(),
    {
        self.heap.allocate_obj(klass)
    }
}

} // verus!
