use runtime::{jvm_value, ot_field, ot_klass, ot_method, ot_obj, shared_klass_repo, vm_context, VmError};

fn s(t: &str) -> String {
    t.to_string()
}

fn klass(name: &str, sup: &str, methods: &[(&str, &str)]) -> ot_klass {
    let ms: Vec<ot_method> = methods
        .iter()
        .map(|(n, d)| ot_method::of(s(name), s(n), s(d), 0, 1, 2))
        .collect();
    ot_klass::of(s(name), s(sup), 0, &Vec::new(), &ms)
}

#[test]
fn add_then_lookup_klass() {
    let mut repo = shared_klass_repo::new();
    repo.add_klass(klass("Foo", "", &[("a", "()V"), ("b", "(I)I")]));
    let k = repo.lookup_klass(s("Foo")).unwrap();
    assert_eq!(k.get_name(), "Foo");
    assert_eq!(k.get_methods().len(), 2);
}

#[test]
fn missing_klass_fails() {
    let repo = shared_klass_repo::new();
    assert_eq!(repo.lookup_klass(s("Nope")).unwrap_err(), VmError::ClassNotFound);
}

#[test]
fn later_registration_wins() {
    let mut repo = shared_klass_repo::new();
    repo.add_klass(klass("Foo", "", &[("a", "()V")]));
    repo.add_klass(klass("Bar", "", &[]));
    repo.add_klass(klass("Foo", "", &[("a", "()V"), ("b", "()V"), ("c", "()V")]));
    assert_eq!(repo.lookup_klass(s("Foo")).unwrap().get_methods().len(), 3);
    assert_eq!(repo.lookup_klass(s("Bar")).unwrap().get_methods().len(), 0);
}

#[test]
fn repo_exact_method_lookup() {
    let mut repo = shared_klass_repo::new();
    repo.add_klass(klass("Foo", "", &[("foo", "(I)V")]));
    let m = repo.lookup_method_exact(&s("Foo"), s("foo:(I)V")).unwrap();
    assert_eq!(m.get_fq_name_desc(), "Foo.foo:(I)V");
    assert_eq!(
        repo.lookup_method_exact(&s("Foo"), s("foo:()V")).unwrap_err(),
        VmError::MethodNotFound
    );
    assert_eq!(
        repo.lookup_method_exact(&s("Bar"), s("foo:(I)V")).unwrap_err(),
        VmError::ClassNotFound
    );
}

#[test]
fn virtual_lookup_walks_superclasses() {
    let mut repo = shared_klass_repo::new();
    repo.add_klass(klass("Base", "java/lang/Object", &[("run", "()V"), ("size", "()I")]));
    repo.add_klass(klass("Mid", "Base", &[]));
    repo.add_klass(klass("Leaf", "Mid", &[("run", "()V")]));
    let own = repo.lookup_method_virtual(&s("Leaf"), s("run:()V")).unwrap();
    assert_eq!(own.get_klass_name(), "Leaf");
    let inherited = repo.lookup_method_virtual(&s("Leaf"), s("size:()I")).unwrap();
    assert_eq!(inherited.get_klass_name(), "Base");
    assert_eq!(
        repo.lookup_method_virtual(&s("Leaf"), s("gone:()V")).unwrap_err(),
        VmError::MethodNotFound
    );
    assert_eq!(
        repo.lookup_method_virtual(&s("Nope"), s("run:()V")).unwrap_err(),
        VmError::ClassNotFound
    );
}

#[test]
fn virtual_lookup_stops_on_cyclic_superclasses() {
    let mut repo = shared_klass_repo::new();
    repo.add_klass(klass("A", "B", &[]));
    repo.add_klass(klass("B", "A", &[]));
    assert_eq!(
        repo.lookup_method_virtual(&s("A"), s("x:()V")).unwrap_err(),
        VmError::MethodNotFound
    );
}

#[test]
fn unmodelled_storage_is_not_implemented() {
    let repo = shared_klass_repo::new();
    assert_eq!(repo.lookup_field(s("Foo"), 1).unwrap_err(), VmError::NotImplemented);
    let f = ot_field::of(s("Foo"), s("x"), 0, 1, 2);
    assert_eq!(
        ot_obj::get_null().put_field(&f, jvm_value::Int { val: 1 }),
        Err(VmError::NotImplemented)
    );
}

#[test]
fn field_owner_lookup() {
    let mut repo = shared_klass_repo::new();
    repo.add_klass(klass("Foo", "", &[]));
    let f = ot_field::of(s("Foo"), s("x"), 0, 1, 2);
    assert_eq!(f.get_klass(&repo).unwrap().get_name(), "Foo");
    let g = ot_field::of(s("Bar"), s("y"), 0, 1, 2);
    assert_eq!(g.get_klass(&repo).unwrap_err(), VmError::ClassNotFound);
}

#[test]
fn context_repo_and_allocation() {
    let mut ctx = vm_context::of();
    ctx.get_repo().add_klass(klass("Foo", "", &[("m", "()V")]));
    assert_eq!(ctx.get_repo().lookup_klass(s("Foo")).unwrap().get_name(), "Foo");
    let k = klass("Other", "", &[]);
    assert!(ctx.allocate_obj(&k).is_null());
    assert!(ctx.get_heap().allocate_obj(&k).is_null());
}
