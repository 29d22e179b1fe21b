use swift_bridge_ir::{BuiltInTypes, Classification, Param, ParsedExternFn, RefKind, TypeRef};

fn catalog() -> BuiltInTypes {
    let mut c = BuiltInTypes::new();
    for (rust, swift) in [
        ("u8", "UInt8"),
        ("i8", "Int8"),
        ("u16", "UInt16"),
        ("i16", "Int16"),
        ("u32", "UInt32"),
        ("i32", "Int32"),
        ("u64", "UInt64"),
        ("i64", "Int64"),
        ("usize", "UInt"),
        ("isize", "Int"),
        ("f32", "Float"),
        ("f64", "Double"),
        ("bool", "Bool"),
    ] {
        c.add(rust.to_string(), swift.to_string());
    }
    c
}

fn ty(name: &str, kind: RefKind) -> TypeRef {
    TypeRef::new(name.to_string(), kind)
}

fn named(name: &str, t: TypeRef) -> Param {
    Param::named(name.to_string(), t)
}

fn func(inputs: Vec<Param>, output: Option<TypeRef>) -> ParsedExternFn {
    ParsedExternFn { inputs, output }
}

const KINDS: [RefKind; 3] = [RefKind::Owned, RefKind::Shared, RefKind::Mutable];

/// `self`, `&self`, `&mut self`, `self: Foo`, `self: &Foo`, `self: &mut Foo`.
fn receiver_spellings() -> Vec<Param> {
    let mut v = Vec::new();
    for k in KINDS {
        v.push(Param::Receiver(k));
    }
    for k in KINDS {
        v.push(named("self", ty("Foo", k)));
    }
    v
}

#[test]
fn return_declared_type() {
    let functions: Vec<ParsedExternFn> =
        KINDS.iter().map(|k| func(vec![], Some(ty("Foo", *k)))).collect();
    assert_eq!(functions.len(), 3);

    for idx in 0..3 {
        assert_eq!(
            functions[idx].to_swift_return(&catalog()),
            " -> UnsafeMutableRawPointer"
        );
    }
}

#[test]
fn excludes_self_from_params() {
    let methods: Vec<ParsedExternFn> =
        receiver_spellings().into_iter().map(|p| func(vec![p], None)).collect();
    assert_eq!(methods.len(), 6);

    for method in &methods {
        assert_eq!(method.to_swift_param_names_and_types(&catalog(), false), "");
    }
}

#[test]
fn strips_references_from_params_with_declared_type() {
    let functions: Vec<ParsedExternFn> =
        KINDS.iter().map(|k| func(vec![named("other", ty("Foo", *k))], None)).collect();
    assert_eq!(functions.len(), 3);

    for idx in 0..3 {
        assert_eq!(
            functions[idx].to_swift_param_names_and_types(&catalog(), false),
            "_ other: Foo"
        );
    }
}

#[test]
fn calls_args_uses_pointer_from_class_instances() {
    let functions: Vec<ParsedExternFn> =
        KINDS.iter().map(|k| func(vec![named("other", ty("Foo", *k))], None)).collect();
    assert_eq!(functions.len(), 3);

    for idx in 0..3 {
        assert_eq!(functions[idx].to_swift_call_args(&catalog(), true), "other.ptr");
    }
}

#[test]
fn receiver_materializes_for_every_spelling() {
    for p in receiver_spellings() {
        let f = func(vec![p], None);
        assert_eq!(
            f.to_swift_param_names_and_types(&catalog(), true),
            "_ this: UnsafeMutableRawPointer"
        );
        assert_eq!(f.to_swift_call_args(&catalog(), true), "ptr");
    }
}

#[test]
fn receiver_comes_first_followed_by_parameters() {
    for p in receiver_spellings() {
        let f = func(vec![p, named("a", ty("u8", RefKind::Owned)), named("other", ty("Foo", RefKind::Shared))], None);
        assert_eq!(
            f.to_swift_param_names_and_types(&catalog(), true),
            "_ this: UnsafeMutableRawPointer, _ a: UInt8, _ other: Foo"
        );
        assert_eq!(f.to_swift_call_args(&catalog(), true), "ptr, a, other.ptr");
        assert_eq!(f.to_swift_param_names_and_types(&catalog(), false), "_ a: UInt8, _ other: Foo");
        assert_eq!(f.to_swift_call_args(&catalog(), false), "a, other.ptr");
    }
}

#[test]
fn receiver_excluded_from_call_args() {
    for p in receiver_spellings() {
        let f = func(vec![p], None);
        assert_eq!(f.to_swift_call_args(&catalog(), false), "");
    }
}

#[test]
fn opaque_call_args_without_receiver_flag() {
    for k in KINDS {
        let f = func(vec![named("other", ty("Foo", k))], None);
        assert_eq!(f.to_swift_call_args(&catalog(), false), "other.ptr");
    }
}

#[test]
fn built_in_parameters_keep_their_order() {
    let f = func(
        vec![
            named("first", ty("u8", RefKind::Owned)),
            named("second", ty("i64", RefKind::Owned)),
            named("third", ty("bool", RefKind::Owned)),
            named("fourth", ty("usize", RefKind::Owned)),
        ],
        None,
    );
    assert_eq!(
        f.to_swift_param_names_and_types(&catalog(), false),
        "_ first: UInt8, _ second: Int64, _ third: Bool, _ fourth: UInt"
    );
    assert_eq!(f.to_swift_call_args(&catalog(), false), "first, second, third, fourth");
}

#[test]
fn built_in_reference_keeps_its_spelling() {
    let f = func(vec![named("x", ty("u32", RefKind::Shared))], None);
    assert_eq!(f.to_swift_param_names_and_types(&catalog(), false), "_ x: UInt32");
    assert_eq!(f.to_swift_call_args(&catalog(), false), "x");
}

#[test]
fn no_parameters_render_empty() {
    let f = func(vec![], None);
    assert_eq!(f.to_swift_param_names_and_types(&catalog(), true), "");
    assert_eq!(f.to_swift_call_args(&catalog(), true), "");
}

#[test]
fn no_return_type_has_no_clause() {
    let f = func(vec![named("a", ty("u8", RefKind::Owned))], None);
    assert_eq!(f.to_swift_return(&catalog()), "");
}

#[test]
fn built_in_return_uses_its_spelling() {
    let f = func(vec![], Some(ty("f64", RefKind::Owned)));
    assert_eq!(f.to_swift_return(&catalog()), " -> Double");
    let g = func(vec![], Some(ty("i16", RefKind::Shared)));
    assert_eq!(g.to_swift_return(&catalog()), " -> Int16");
}

#[test]
fn empty_catalog_makes_every_type_opaque() {
    let empty = BuiltInTypes::new();
    let f = func(vec![named("a", ty("u8", RefKind::Owned))], Some(ty("u8", RefKind::Owned)));
    assert_eq!(f.to_swift_param_names_and_types(&empty, false), "_ a: u8");
    assert_eq!(f.to_swift_call_args(&empty, false), "a.ptr");
    assert_eq!(f.to_swift_return(&empty), " -> UnsafeMutableRawPointer");
}

#[test]
fn first_catalog_entry_decides() {
    let mut c = BuiltInTypes::new();
    c.add("u8".to_string(), "UInt8".to_string());
    c.add("u8".to_string(), "Byte".to_string());
    match c.with_type(&ty("u8", RefKind::Mutable)) {
        Classification::BuiltIn(s) => assert_eq!(s, "UInt8"),
        Classification::Opaque => panic!("u8 is built in"),
    }
    assert!(matches!(c.with_type(&ty("Foo", RefKind::Owned)), Classification::Opaque));
}

#[test]
fn receiver_recognised_by_name() {
    assert!(Param::Receiver(RefKind::Shared).is_receiver());
    assert!(named("self", ty("Foo", RefKind::Mutable)).is_receiver());
    assert!(!named("other", ty("Foo", RefKind::Mutable)).is_receiver());
    assert!(!named("selfish", ty("u8", RefKind::Owned)).is_receiver());
}
