use generic_linkme::declaration::expand;
use generic_linkme::declaration::is_c;
use generic_linkme::declaration::populate_static_lifetimes;
use generic_linkme::declaration::Declaration;
use generic_linkme::declaration::DeclarationError;
use generic_linkme::declaration::Initializer;
use generic_linkme::declaration::PlatformLayout;
use generic_linkme::declaration::StaticItem;
use generic_linkme::linker::Platform;
use generic_linkme::linker::UnsupportedPlatform;
use generic_linkme::ty::Abi;
use generic_linkme::ty::BareFn;
use generic_linkme::ty::BareFnArg;
use generic_linkme::ty::GenericArgument;
use generic_linkme::ty::PathArguments;
use generic_linkme::ty::PathSegment;
use generic_linkme::ty::Type;

fn named(name: &str) -> Type {
    Type::Path(None, vec![PathSegment { ident: name.to_string(), arguments: PathArguments::Absent }])
}

fn pointer(abi: Option<Abi>) -> BareFn {
    BareFn {
        lifetimes: None,
        unsafety: false,
        abi,
        inputs: Vec::new(),
        output: Some(Box::new(named("u32"))),
    }
}

fn slice_of(pointer: BareFn) -> Type {
    Type::Slice(Box::new(Type::BareFn(pointer)))
}

fn abi(name: &str) -> Option<Abi> {
    Some(Abi { name: Some(name.to_string()) })
}

fn item(name: &str, ty: Type) -> StaticItem {
    StaticItem { mutable: false, ident: name.to_string(), ty, initializer: Initializer::Rest }
}

fn reference(lifetime: Option<&str>, elem: Type) -> Type {
    Type::Reference(lifetime.map(|name| name.to_string()), false, Box::new(elem))
}

#[test]
fn parse_fills_in_the_c_calling_convention() {
    let declaration = Declaration::parse(item("NUMS", slice_of(pointer(None)))).unwrap();
    assert_eq!(declaration.ident, "NUMS");
    assert_eq!(declaration.ty, slice_of(pointer(abi("\"C\""))));
}

#[test]
fn parse_keeps_a_written_c_calling_convention() {
    let written = Declaration::parse(item("NUMS", slice_of(pointer(abi("\"C\""))))).unwrap();
    assert_eq!(written.ty, slice_of(pointer(abi("\"C\""))));
    let bare = Declaration::parse(item("NUMS", slice_of(pointer(Some(Abi { name: None })))));
    assert_eq!(bare.unwrap().ty, slice_of(pointer(Some(Abi { name: None }))));
}

#[test]
fn parse_keeps_the_signature() {
    let signature = BareFn {
        lifetimes: Some(vec!["'a".to_string(), "'b".to_string()]),
        unsafety: true,
        abi: None,
        inputs: vec![BareFnArg {
            name: Some("x".to_string()),
            ty: reference(Some("'a"), reference(Some("'b"), Type::Tuple(Vec::new()))),
        }],
        output: None,
    };
    let expected = BareFn {
        lifetimes: Some(vec!["'a".to_string(), "'b".to_string()]),
        unsafety: true,
        abi: abi("\"C\""),
        inputs: vec![BareFnArg {
            name: Some("x".to_string()),
            ty: reference(Some("'a"), reference(Some("'b"), Type::Tuple(Vec::new()))),
        }],
        output: None,
    };
    let declaration = Declaration::parse(item("SLICE2", slice_of(signature))).unwrap();
    assert_eq!(declaration.ty, slice_of(expected));
}

#[test]
fn parse_rejects_static_mut() {
    let mut input = item("NUMS", slice_of(pointer(None)));
    input.mutable = true;
    assert_eq!(Declaration::parse(input), Err(DeclarationError::StaticMut));
}

#[test]
fn parse_rejects_what_is_no_slice() {
    assert_eq!(
        Declaration::parse(item("NUMS", Type::BareFn(pointer(None)))),
        Err(DeclarationError::NotSlice)
    );
    assert_eq!(
        Declaration::parse(item("NUMS", Type::Array(Box::new(Type::BareFn(pointer(None))), "4".to_string()))),
        Err(DeclarationError::NotSlice)
    );
    assert_eq!(Declaration::parse(item("NUMS", named("u32"))), Err(DeclarationError::NotSlice));
}

#[test]
fn parse_rejects_elements_that_are_no_function_pointers() {
    assert_eq!(
        Declaration::parse(item("NUMS", Type::Slice(Box::new(named("u32"))))),
        Err(DeclarationError::NotBareFn)
    );
    assert_eq!(
        Declaration::parse(item("NUMS", Type::Slice(Box::new(slice_of(pointer(None)))))),
        Err(DeclarationError::NotBareFn)
    );
}

#[test]
fn parse_rejects_other_calling_conventions() {
    for name in ["\"sysv64\"", "\"Rust\"", "\"c\"", "C", "\"C\" ", ""] {
        assert_eq!(
            Declaration::parse(item("SLICE3", slice_of(pointer(abi(name))))),
            Err(DeclarationError::NotCAbi)
        );
    }
}

#[test]
fn parse_rejects_other_initializers() {
    let mut input = item("NUMS", slice_of(pointer(None)));
    input.initializer = Initializer::Bracketed;
    assert_eq!(Declaration::parse(input), Err(DeclarationError::NotRest));
    let mut input = item("NUMS", slice_of(pointer(None)));
    input.initializer = Initializer::Other;
    assert_eq!(Declaration::parse(input), Err(DeclarationError::NotBracketed));
    let mut input = item("NUMS", slice_of(pointer(None)));
    input.initializer = Initializer::Other;
    assert_eq!(expand(input), Err(DeclarationError::NotBracketed));
}

#[test]
fn initializer_is_looked_at_last() {
    let mut input = item("NUMS", slice_of(pointer(abi("\"sysv64\""))));
    input.initializer = Initializer::Other;
    assert_eq!(Declaration::parse(input), Err(DeclarationError::NotCAbi));
    let mut input = item("NUMS", named("u32"));
    input.initializer = Initializer::Bracketed;
    assert_eq!(Declaration::parse(input), Err(DeclarationError::NotSlice));
    let mut input = item("NUMS", slice_of(pointer(None)));
    input.initializer = Initializer::Bracketed;
    input.mutable = true;
    assert_eq!(Declaration::parse(input), Err(DeclarationError::StaticMut));
}

#[test]
fn declaration_parse_reports_the_first_broken_rule() {
    let mut input = item("NUMS", named("u32"));
    input.mutable = true;
    assert_eq!(Declaration::parse(input), Err(DeclarationError::StaticMut));
    let input = item("NUMS", Type::Slice(Box::new(named("u32"))));
    assert_eq!(Declaration::parse(input), Err(DeclarationError::NotBareFn));
}

#[test]
fn is_c_accepts_bare_extern_and_c() {
    assert!(is_c(&Abi { name: None }));
    assert!(is_c(&Abi { name: Some("\"C\"".to_string()) }));
    assert!(!is_c(&Abi { name: Some("\"sysv64\"".to_string()) }));
    assert!(!is_c(&Abi { name: Some("\"C-unwind\"".to_string()) }));
}

#[test]
fn declaration_error_messages() {
    assert_eq!(
        DeclarationError::StaticMut.message(),
        "static mut is not supported by distributed_fn_slice"
    );
    assert_eq!(DeclarationError::NotSlice.message(), "distributed_fn_slice must be a slice");
    assert_eq!(
        DeclarationError::NotBareFn.message(),
        "distributed_fn_slice can only contain bare function pointers"
    );
    assert_eq!(
        DeclarationError::NotCAbi.message(),
        "distributed_fn_slice can only contain function pointers that use C ABI"
    );
    assert_eq!(DeclarationError::NotBracketed.message(), "expected square brackets");
    assert_eq!(DeclarationError::NotRest.message(), "expected `..`");
}

#[test]
fn expand_lays_the_registry_out_on_every_platform() {
    let expansion = expand(item("NUMS", slice_of(pointer(None)))).unwrap();
    assert_eq!(expansion.name, "NUMS");
    assert_eq!(expansion.link_section_macro, "_generic_linkme_macro_NUMS");
    assert_eq!(expansion.ty, slice_of(pointer(abi("\"C\""))));
    assert_eq!(expansion.linux.content.section, "generic_linkme_NUMS");
    assert_eq!(expansion.linux.content.start, "__start_generic_linkme_NUMS");
    assert_eq!(expansion.linux.content.stop, "__stop_generic_linkme_NUMS");
    assert_eq!(expansion.linux.dupcheck.section, "generic_linkm2_NUMS");
    assert_eq!(expansion.linux.dupcheck.start, "__start_generic_linkm2_NUMS");
    assert_eq!(expansion.linux.dupcheck.stop, "__stop_generic_linkm2_NUMS");
    assert_eq!(expansion.windows.content.section, ".generic_linkme_NUMS$b");
    assert_eq!(expansion.windows.content.start, ".generic_linkme_NUMS$a");
    assert_eq!(expansion.windows.content.stop, ".generic_linkme_NUMS$c");
    assert_eq!(expansion.windows.dupcheck.section, ".generic_linkm2_NUMS$b");
    assert_eq!(expansion.illumos.content.section, "set_generic_linkme_NUMS");
    assert_eq!(expansion.illumos.dupcheck.start, "__start_set_generic_linkm2_NUMS");
    assert_eq!(expansion.freebsd, expansion.linux);
    assert_eq!(expansion.macho, PlatformLayout::of(Platform::MachO, "NUMS"));
    assert_eq!(expansion.macho.content, Platform::MachO.content("NUMS"));
    assert_eq!(expansion.macho.dupcheck, Platform::MachO.dupcheck("NUMS"));
}

#[test]
fn expand_is_deterministic() {
    let first = expand(item("ECHO", slice_of(pointer(None))));
    let second = expand(item("ECHO", slice_of(pointer(None))));
    assert!(first.is_ok());
    assert_eq!(first, second);
}

#[test]
fn expand_passes_rejections_on() {
    let mut input = item("NUMS", slice_of(pointer(None)));
    input.mutable = true;
    assert_eq!(expand(input), Err(DeclarationError::StaticMut));
    assert_eq!(expand(item("NUMS", named("u32"))), Err(DeclarationError::NotSlice));
    assert_eq!(
        expand(item("NUMS", Type::Slice(Box::new(named("u32"))))),
        Err(DeclarationError::NotBareFn)
    );
    assert_eq!(
        expand(item("NUMS", slice_of(pointer(abi("\"sysv64\""))))),
        Err(DeclarationError::NotCAbi)
    );
}

#[test]
fn select_picks_the_layout_of_the_target() {
    let expansion = expand(item("NUMS", slice_of(pointer(None)))).unwrap();
    assert_eq!(expansion.select("linux"), Ok(&expansion.linux));
    assert_eq!(expansion.select("none"), Ok(&expansion.linux));
    assert_eq!(expansion.select("macos"), Ok(&expansion.macho));
    assert_eq!(expansion.select("ios"), Ok(&expansion.macho));
    assert_eq!(expansion.select("tvos"), Ok(&expansion.macho));
    assert_eq!(expansion.select("windows"), Ok(&expansion.windows));
    assert_eq!(expansion.select("illumos"), Ok(&expansion.illumos));
    assert_eq!(expansion.select("freebsd"), Ok(&expansion.freebsd));
}

#[test]
fn select_fails_on_an_unsupported_target() {
    let expansion = expand(item("NUMS", slice_of(pointer(None)))).unwrap();
    assert_eq!(expansion.select("openbsd"), Err(UnsupportedPlatform));
    assert_eq!(expansion.select("wasi"), Err(UnsupportedPlatform));
    assert_eq!(expansion.select(""), Err(UnsupportedPlatform));
}

#[test]
fn populate_names_static_in_bare_references() {
    let mut ty = reference(None, named("str"));
    populate_static_lifetimes(&mut ty);
    assert_eq!(ty, reference(Some("'static"), named("str")));
}

#[test]
fn populate_keeps_named_lifetimes() {
    let mut ty = reference(Some("'a"), reference(None, named("str")));
    populate_static_lifetimes(&mut ty);
    assert_eq!(ty, reference(Some("'a"), reference(Some("'static"), named("str"))));
}

#[test]
fn populate_looks_into_containers() {
    let mut ty = Type::Tuple(vec![
        Type::Array(Box::new(reference(None, named("u8"))), "4".to_string()),
        Type::Slice(Box::new(reference(None, named("u8")))),
        Type::Ptr(true, Box::new(reference(None, named("u8")))),
        Type::Paren(Box::new(reference(None, named("u8")))),
        Type::Group(Box::new(reference(None, named("u8")))),
        named("u8"),
    ]);
    populate_static_lifetimes(&mut ty);
    let filled = || reference(Some("'static"), named("u8"));
    assert_eq!(
        ty,
        Type::Tuple(vec![
            Type::Array(Box::new(filled()), "4".to_string()),
            Type::Slice(Box::new(filled())),
            Type::Ptr(true, Box::new(filled())),
            Type::Paren(Box::new(filled())),
            Type::Group(Box::new(filled())),
            named("u8"),
        ])
    );
}

#[test]
fn populate_looks_into_paths() {
    let path = |inner: Type, qself: Type| {
        Type::Path(
            Some(Box::new(qself)),
            vec![
                PathSegment { ident: "Iterator".to_string(), arguments: PathArguments::Absent },
                PathSegment {
                    ident: "Item".to_string(),
                    arguments: PathArguments::AngleBracketed(vec![
                        GenericArgument::Other("'a".to_string()),
                        GenericArgument::Type(inner),
                    ]),
                },
                PathSegment {
                    ident: "Fn".to_string(),
                    arguments: PathArguments::Parenthesized("(&u8) -> &u8".to_string()),
                },
            ],
        )
    };
    let mut ty = path(reference(None, named("u8")), reference(None, named("T")));
    populate_static_lifetimes(&mut ty);
    assert_eq!(
        ty,
        path(reference(Some("'static"), named("u8")), reference(Some("'static"), named("T")))
    );
}

#[test]
fn populate_leaves_function_pointers_alone() {
    let signature = || BareFn {
        lifetimes: None,
        unsafety: false,
        abi: None,
        inputs: vec![BareFnArg { name: None, ty: reference(None, named("u8")) }],
        output: Some(Box::new(reference(None, named("u8")))),
    };
    let mut ty = slice_of(signature());
    populate_static_lifetimes(&mut ty);
    assert_eq!(ty, slice_of(signature()));
    for opaque in [
        Type::ImplTrait("Fn(&u8)".to_string()),
        Type::TraitObject("dyn Fn(&u8)".to_string()),
        Type::Macro("m!(&u8)".to_string()),
        Type::Verbatim("&u8".to_string()),
        Type::Infer,
        Type::Never,
    ] {
        let mut ty = Type::Tuple(vec![opaque]);
        let before = format!("{:?}", ty);
        populate_static_lifetimes(&mut ty);
        assert_eq!(format!("{:?}", ty), before);
    }
}

#[test]
fn populate_is_idempotent() {
    let mut once = Type::Tuple(vec![reference(None, reference(None, named("u8")))]);
    populate_static_lifetimes(&mut once);
    let mut twice = Type::Tuple(vec![reference(None, reference(None, named("u8")))]);
    populate_static_lifetimes(&mut twice);
    populate_static_lifetimes(&mut twice);
    assert_eq!(once, twice);
}
