use dustr::ast::{
    Attr, AttrArgs, Decl, FieldDecl, FnDecl, ModDecl, SourceFile, SourceTree, StructDecl, TypeExpr,
    DescriptorShape, EnumDecl, VariantDecl,
};
use dustr::error::Error;
use dustr::module::{
    derives_ffishim, derives_ffishim_function, filter_item_enum, filter_item_fn,
    filter_item_struct, Module,
};
use dustr::types::{behaviors, switch, Behavior};

fn path(name: &str) -> TypeExpr {
    TypeExpr::Path { name: name.to_string(), args: vec![] }
}

fn path_with(name: &str, args: Vec<TypeExpr>) -> TypeExpr {
    TypeExpr::Path { name: name.to_string(), args }
}

fn derive_attr(items: &[&str]) -> Attr {
    Attr {
        path: "derive".to_string(),
        args: AttrArgs::List { items: items.iter().map(|s| s.to_string()).collect() },
    }
}

fn marked_struct(name: &str, fields: Vec<(&str, TypeExpr)>) -> StructDecl {
    StructDecl {
        name: name.to_string(),
        attrs: vec![derive_attr(&["FFIShim"])],
        fields: fields
            .into_iter()
            .map(|(n, t)| FieldDecl { name: n.to_string(), ty: t })
            .collect(),
    }
}

fn plain_fn(name: &str, marked: bool) -> FnDecl {
    let attrs = if marked {
        vec![Attr { path: "ffishim_function".to_string(), args: AttrArgs::NoArgs }]
    } else {
        vec![]
    };
    FnDecl { name: name.to_string(), attrs, params: vec![], ret: None }
}

#[test]
fn dispatch_all_scalars() {
    for name in ["f32", "f64", "u8", "u16", "u32", "u64", "i8", "i16", "i32", "i64"] {
        let t = path(name);
        assert_eq!(switch(&t).unwrap(), Behavior::Scalar, "scalar {}", name);
    }
}

#[test]
fn dispatch_rejects_usize_isize_and_unknown() {
    for name in ["usize", "isize", "Foo", "bool", "String"] {
        let t = path(name);
        assert!(matches!(switch(&t), Err(Error::UnrecognizedType)), "name {}", name);
    }
}

#[test]
fn dispatch_duration_and_result() {
    assert_eq!(switch(&path("Duration")).unwrap(), Behavior::Duration);
    assert_eq!(switch(&path("Result")).unwrap(), Behavior::ResultShape);
}

#[test]
fn dispatch_non_path_fails() {
    assert!(matches!(switch(&TypeExpr::Other), Err(Error::UnrecognizedType)));
}

#[test]
fn registry_order_is_specific_before_general() {
    let regs = behaviors();
    assert_eq!(regs, vec![Behavior::Duration, Behavior::ResultShape, Behavior::Scalar]);
}

#[test]
fn recognizes_is_pure() {
    let t1 = path("f32");
    let t2 = path("f32");
    for b in behaviors() {
        assert_eq!(b.is(&t1), b.is(&t1));
        assert_eq!(b.is(&t1), b.is(&t2));
    }
}

#[test]
fn scalar_round_trip_is_identity() {
    let t = path("u32");
    let b = switch(&t).unwrap();
    let ffi = b.native_to_ffi(&t, "x".to_string()).unwrap();
    let back = b.ffi_to_native(&t, ffi).unwrap();
    assert_eq!(back, "x");
}

#[test]
fn duration_round_trip_is_exact_milliseconds() {
    let t = path("Duration");
    let b = switch(&t).unwrap();
    let ffi = b.native_to_ffi(&t, "x".to_string()).unwrap();
    assert_eq!(ffi, "x.inMilliseconds");
    let back = b.ffi_to_native(&t, ffi).unwrap();
    assert_eq!(back, "Duration(milliseconds: x.inMilliseconds)");
}

#[test]
fn result_conversions_are_unimplemented() {
    let t = path_with("Result", vec![path("i32"), path("String")]);
    let b = switch(&t).unwrap();
    assert!(matches!(b.native_to_ffi(&t, "x".to_string()), Err(Error::UnimplementedConversion)));
    assert!(matches!(b.ffi_to_native(&t, "x".to_string()), Err(Error::UnimplementedConversion)));
}

#[test]
fn scalar_representations_follow_the_tables() {
    let cases_native = [("f32", "Double"), ("f64", "Doubleint"), ("u8", "int"), ("i64", "int")];
    for (n, want) in cases_native {
        let t = path(n);
        let b = switch(&t).unwrap();
        assert_eq!(b.native(&t).unwrap(), want, "native of {}", n);
    }
    let cases_ffi = [
        ("f32", "ffi.Float"),
        ("f64", "ffi.Double"),
        ("u8", "ffi.Uint8"),
        ("u16", "ffi.Uint16"),
        ("u32", "ffi.Uint32"),
        ("u64", "ffi.Uint64"),
        ("i8", "ffi.Int8"),
        ("i16", "ffi.Int16"),
        ("i32", "ffi.Int32"),
        ("i64", "ffi.Int64"),
    ];
    for (n, want) in cases_ffi {
        let t = path(n);
        let b = switch(&t).unwrap();
        assert_eq!(b.ffi(&t).unwrap(), want, "ffi of {}", n);
    }
}

#[test]
fn duration_representations() {
    let t = path("Duration");
    let b = switch(&t).unwrap();
    assert_eq!(b.name(&t).unwrap(), "duration");
    assert_eq!(b.ffi(&t).unwrap(), "int");
    assert_eq!(b.native(&t).unwrap(), "Duration");
    assert_eq!(b.imports(&t, "pkg", "pkg").unwrap(), Vec::<String>::new());
}

#[test]
fn scalar_name_is_the_scalar_itself() {
    let t = path("i16");
    let b = switch(&t).unwrap();
    assert_eq!(b.name(&t).unwrap(), "i16");
}

#[test]
fn result_of_option_dispatches_but_has_no_name() {
    // Dispatch succeeds on the outer result shape; naming it is an
    // unsupported composition.
    let t = path_with("Result", vec![path_with("Option", vec![path("i32")]), path("String")]);
    let b = switch(&t).unwrap();
    assert_eq!(b, Behavior::ResultShape);
    assert!(matches!(b.name(&t), Err(Error::UnsupportedShape)));
}

#[test]
fn result_imports_include_payload_imports() {
    let t = path_with("Result", vec![path("f32"), path("String")]);
    let b = switch(&t).unwrap();
    let imports = b.imports(&t, "mypkg", "mypkg").unwrap();
    assert_eq!(imports, vec!["dart:ffi".to_string(), "package:mypkg/dustr/result.dart".to_string()]);
}

#[test]
fn result_without_payload_is_unsupported() {
    let t = path("Result");
    let b = switch(&t).unwrap();
    assert!(matches!(b.imports(&t, "p", "p"), Err(Error::UnsupportedShape)));
}

#[test]
fn result_of_unrecognized_payload_fails_dispatch() {
    let t = path_with("Result", vec![path("usize"), path("String")]);
    let b = switch(&t).unwrap();
    assert!(matches!(b.imports(&t, "p", "p"), Err(Error::UnrecognizedType)));
}

#[test]
fn marker_detection() {
    assert!(derives_ffishim(&vec![derive_attr(&["Clone", "FFIShim"])]));
    assert!(!derives_ffishim(&vec![derive_attr(&["Clone", "Debug"])]));
    assert!(!derives_ffishim(&vec![Attr {
        path: "ffishim_function".to_string(),
        args: AttrArgs::NoArgs,
    }]));
    assert!(derives_ffishim_function(&vec![Attr {
        path: "ffishim_function".to_string(),
        args: AttrArgs::NoArgs,
    }]));
    assert!(!derives_ffishim_function(&vec![derive_attr(&["FFIShim"])]));
}

#[test]
fn unmarked_struct_is_dropped_silently() {
    let decl = StructDecl { name: "S".to_string(), attrs: vec![], fields: vec![] };
    assert_eq!(filter_item_struct(&decl).unwrap(), None);
}

#[test]
fn unreadable_marker_metadata_is_an_extraction_error() {
    let decl = StructDecl {
        name: "Broken".to_string(),
        attrs: vec![
            derive_attr(&["FFIShim"]),
            Attr { path: "ffishim".to_string(), args: AttrArgs::OtherShape },
        ],
        fields: vec![],
    };
    match filter_item_struct(&decl) {
        Err(Error::DescriptorExtraction { decl }) => assert_eq!(decl, "Broken"),
        other => panic!("expected extraction error, got {:?}", other),
    }
}

#[test]
fn marked_enum_keeps_its_variants() {
    let decl = EnumDecl {
        name: "E".to_string(),
        attrs: vec![derive_attr(&["FFIShim"])],
        variants: vec![VariantDecl { name: "A".to_string(), tys: vec![path("u8")] }],
    };
    let d = filter_item_enum(&decl).unwrap().unwrap();
    assert_eq!(d.name, "E");
    match d.shape {
        DescriptorShape::Variants(vs) => {
            assert_eq!(vs.len(), 1);
            assert_eq!(vs[0].name, "A");
        },
        _ => panic!("expected variants"),
    }
}

#[test]
fn marked_function_is_kept() {
    assert!(filter_item_fn(&plain_fn("f", true)).is_some());
    assert!(filter_item_fn(&plain_fn("f", false)).is_none());
}

fn file(path: &[&str], decls: Vec<Decl>) -> SourceFile {
    SourceFile { path: path.iter().map(|s| s.to_string()).collect(), decls }
}

#[test]
fn scenario_one_marked_struct() {
    let tree = SourceTree {
        files: vec![file(
            &["src", "lib.rs"],
            vec![Decl::Struct(marked_struct(
                "Point",
                vec![("x", path("f32")), ("y", path("f32"))],
            ))],
        )],
    };
    let m = Module::from_crate(&tree, "Mypkg").unwrap();
    assert_eq!(m.name, "mypkg");
    assert_eq!(m.crate_name, "mypkg");
    assert_eq!(m.structs.len(), 1);
    assert_eq!(m.structs[0].name, "Point");
    match &m.structs[0].shape {
        DescriptorShape::Fields(fs) => {
            assert_eq!(fs.len(), 2);
            assert_eq!(fs[0].name, "x");
            assert_eq!(fs[1].name, "y");
        },
        _ => panic!("expected fields"),
    }
    assert!(m.enums.is_empty());
    assert!(m.functions.is_empty());
    assert!(m.subs.is_empty());
}

#[test]
fn scenario_nested_inline_module() {
    let inner = vec![
        Decl::Fn(plain_fn("exported", true)),
        Decl::Struct(StructDecl { name: "Hidden".to_string(), attrs: vec![], fields: vec![] }),
    ];
    let tree = SourceTree {
        files: vec![file(
            &["src", "lib.rs"],
            vec![Decl::Mod(ModDecl { name: "inner".to_string(), content: Some(inner) })],
        )],
    };
    let m = Module::from_crate(&tree, "pkg").unwrap();
    assert_eq!(m.subs.len(), 1);
    let sub = &m.subs[0];
    assert_eq!(sub.name, "inner");
    assert_eq!(sub.crate_name, "pkg");
    assert_eq!(sub.functions.len(), 1);
    assert_eq!(sub.functions[0].name, "exported");
    assert!(sub.structs.is_empty());
}

#[test]
fn empty_submodules_are_pruned() {
    let empty_leaf = Decl::Mod(ModDecl { name: "leaf".to_string(), content: Some(vec![]) });
    let only_empty = Decl::Mod(ModDecl {
        name: "middle".to_string(),
        content: Some(vec![empty_leaf]),
    });
    let tree = SourceTree { files: vec![file(&["src", "lib.rs"], vec![only_empty])] };
    let m = Module::from_crate(&tree, "pkg").unwrap();
    assert!(m.subs.is_empty());
}

#[test]
fn resolution_prefers_flat_file() {
    let tree = SourceTree {
        files: vec![
            file(
                &["src", "lib.rs"],
                vec![Decl::Mod(ModDecl { name: "foo".to_string(), content: None })],
            ),
            file(&["src", "foo.rs"], vec![Decl::Fn(plain_fn("flat_fn", true))]),
        ],
    };
    let m = Module::from_crate(&tree, "pkg").unwrap();
    assert_eq!(m.subs.len(), 1);
    assert_eq!(m.subs[0].name, "foo");
    assert_eq!(m.subs[0].functions[0].name, "flat_fn");
}

#[test]
fn resolution_falls_back_to_directory_convention() {
    let tree = SourceTree {
        files: vec![
            file(
                &["src", "lib.rs"],
                vec![Decl::Mod(ModDecl { name: "foo".to_string(), content: None })],
            ),
            file(&["src", "foo", "mod.rs"], vec![Decl::Fn(plain_fn("dir_fn", true))]),
        ],
    };
    let m = Module::from_crate(&tree, "pkg").unwrap();
    assert_eq!(m.subs.len(), 1);
    assert_eq!(m.subs[0].functions[0].name, "dir_fn");
}

#[test]
fn resolution_prefers_flat_file_over_directory() {
    let tree = SourceTree {
        files: vec![
            file(
                &["src", "lib.rs"],
                vec![Decl::Mod(ModDecl { name: "foo".to_string(), content: None })],
            ),
            file(&["src", "foo.rs"], vec![Decl::Fn(plain_fn("flat_fn", true))]),
            file(&["src", "foo", "mod.rs"], vec![Decl::Fn(plain_fn("dir_fn", true))]),
        ],
    };
    let m = Module::from_crate(&tree, "pkg").unwrap();
    assert_eq!(m.subs[0].functions[0].name, "flat_fn");
}

#[test]
fn qualified_scalar_names_are_still_claimed_by_trailing_segment() {
    // The scalar behavior matches purely by the trailing path segment's
    // name: a user-defined type sharing a scalar's bare name is classified
    // as that scalar. This is the documented matching rule, kept as is.
    let t = path("f32");
    assert_eq!(switch(&t).unwrap(), Behavior::Scalar);
}

#[test]
fn resolution_fails_when_neither_layout_exists() {
    let tree = SourceTree {
        files: vec![file(
            &["src", "lib.rs"],
            vec![Decl::Mod(ModDecl { name: "foo".to_string(), content: None })],
        )],
    };
    match Module::from_crate(&tree, "pkg") {
        Err(Error::InvalidModulePath { path }) => {
            assert_eq!(path, vec!["src".to_string(), "foo".to_string(), "mod.rs".to_string()]);
        },
        other => panic!("expected invalid module path, got {:?}", other),
    }
}

#[test]
fn missing_primary_file_is_an_error() {
    let tree = SourceTree { files: vec![] };
    assert!(matches!(
        Module::from_crate(&tree, "pkg"),
        Err(Error::InvalidModulePath { .. })
    ));
}

#[test]
fn module_cycles_are_reported() {
    let tree = SourceTree {
        files: vec![
            file(
                &["src", "lib.rs"],
                vec![Decl::Mod(ModDecl { name: "a".to_string(), content: None })],
            ),
            file(
                &["src", "a.rs"],
                vec![Decl::Mod(ModDecl { name: "b".to_string(), content: None })],
            ),
            file(
                &["src", "b.rs"],
                vec![Decl::Mod(ModDecl { name: "a".to_string(), content: None })],
            ),
        ],
    };
    assert!(matches!(
        Module::from_crate(&tree, "pkg"),
        Err(Error::InvalidModulePath { .. })
    ));
}

#[test]
fn declarations_keep_source_order() {
    let tree = SourceTree {
        files: vec![file(
            &["src", "lib.rs"],
            vec![
                Decl::Struct(marked_struct("A", vec![])),
                Decl::OtherItem,
                Decl::Struct(marked_struct("B", vec![])),
                Decl::Fn(plain_fn("f1", true)),
                Decl::Fn(plain_fn("f2", true)),
            ],
        )],
    };
    let m = Module::from_crate(&tree, "pkg").unwrap();
    assert_eq!(m.structs.iter().map(|d| d.name.clone()).collect::<Vec<_>>(), vec!["A", "B"]);
    assert_eq!(m.functions.iter().map(|f| f.name.clone()).collect::<Vec<_>>(), vec!["f1", "f2"]);
}

#[test]
fn filter_errors_carry_the_declaration_and_abort_the_build() {
    let tree = SourceTree {
        files: vec![file(
            &["src", "lib.rs"],
            vec![Decl::Struct(StructDecl {
                name: "Bad".to_string(),
                attrs: vec![
                    derive_attr(&["FFIShim"]),
                    Attr { path: "ffishim".to_string(), args: AttrArgs::OtherShape },
                ],
                fields: vec![],
            })],
        )],
    };
    match Module::from_crate(&tree, "pkg") {
        Err(Error::DescriptorExtraction { decl }) => assert_eq!(decl, "Bad"),
        other => panic!("expected extraction error, got {:?}", other),
    }
}
