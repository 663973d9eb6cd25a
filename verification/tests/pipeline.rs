use frb_codegen::codegen::generator::abi::{AbiParam, AbiType};
use frb_codegen::codegen::generator::{generate, GeneratorConfig};
use frb_codegen::codegen::ir::hir::hierarchical::ItemClass;
use frb_codegen::codegen::ir::hir::raw::{
    ExecutionMode, HirRawPack, Marks, RawCrate, RawDecl, RawDeclKind, RawField, RawFunction,
    RawGeneric, RawModule, RawPayload, RawType, RawVariant, Visibility,
};
use frb_codegen::codegen::ir::mir::{
    MirField, MirItemKind, MirPayload, MirSlot, MirType, MirVariant, OwnershipTag, PrimitiveKind,
};
use frb_codegen::codegen::parser::hir::hierarchical::pub_use::{resolve, Resolved};
use frb_codegen::codegen::parser::hir::hierarchical::visibility::meet;
use frb_codegen::codegen::parser::hir::hierarchical::{parse, ResolutionError};
use frb_codegen::codegen::parser::hir::internal_config::ParserHirInternalConfig;
use frb_codegen::codegen::parser::mir::ident::stable_id;
use frb_codegen::codegen::parser::mir::{lower, LoweringError};
use frb_codegen::codegen::{confirm_emission, run, run_from, PipelineError};
use frb_codegen::commands::command_runner::CommandOutput;

fn path(segments: &[&str]) -> Vec<String> {
    segments.iter().map(|s| s.to_string()).collect()
}

fn named(name: &str) -> RawType {
    RawType::Named { name: name.to_string(), args: vec![] }
}

fn generic(name: &str, args: Vec<RawType>) -> RawType {
    RawType::Named { name: name.to_string(), args }
}

fn reference(inner: RawType) -> RawType {
    RawType::Reference { inner: Box::new(inner) }
}

fn field(name: &str, ty: RawType) -> RawField {
    RawField { name: name.to_string(), ty }
}

fn plain() -> Marks {
    Marks { owned: false, borrowed: false, opaque: false }
}

fn decl(name: &str, visibility: Visibility, kind: RawDeclKind) -> RawDecl {
    RawDecl { name: name.to_string(), visibility, mirror: None, kind }
}

fn public_struct(name: &str, fields: Vec<RawField>) -> RawDecl {
    decl(name, Visibility::Public, RawDeclKind::Struct { fields, marks: plain() })
}

fn marked_struct(name: &str, marks: Marks) -> RawDecl {
    decl(name, Visibility::Public, RawDeclKind::Struct { fields: vec![], marks })
}

fn function(name: &str, params: Vec<RawField>, ret: Option<RawType>) -> RawDecl {
    decl(
        name,
        Visibility::Public,
        RawDeclKind::Function {
            function: RawFunction {
                generics: vec![],
                params,
                ret,
                fallible: None,
                mode: ExecutionMode::Blocking,
            },
        },
    )
}

fn public_use(name: &str, target: &[&str]) -> RawDecl {
    decl(name, Visibility::Public, RawDeclKind::Use { target: path(target) })
}

fn module(name: &str, visibility: Visibility, decls: Vec<RawDecl>, modules: Vec<RawModule>) -> RawModule {
    RawModule { name: name.to_string(), visibility, decls, modules }
}

fn one_crate(name: &str, decls: Vec<RawDecl>, modules: Vec<RawModule>) -> HirRawPack {
    HirRawPack {
        crates: vec![RawCrate {
            name: name.to_string(),
            root: module("", Visibility::Public, decls, modules),
        }],
    }
}

fn primary(names: &[&str]) -> ParserHirInternalConfig {
    ParserHirInternalConfig { primary_crates: path(names) }
}

fn generator_config() -> GeneratorConfig {
    GeneratorConfig {
        header_path: "out/bridge.h".to_string(),
        managed_output_dir: "lib/src".to_string(),
    }
}

fn int32() -> MirType {
    MirType::Primitive(PrimitiveKind::I32)
}

fn point_fields() -> Vec<RawField> {
    vec![field("x", named("i32")), field("y", named("i32"))]
}

/// Lowers the type of the only parameter of a public function `probe` that is
/// declared beside `decls` in the crate `demo`.
fn lower_param(ty: RawType, mut decls: Vec<RawDecl>) -> Result<MirSlot, LoweringError> {
    decls.push(function("probe", vec![field("value", ty)], None));
    let raw = one_crate("demo", decls, vec![]);
    let pack = parse(&primary(&["demo"]), &raw).expect("the crate resolves");
    let doc = lower(&pack)?;
    let probe = doc
        .items
        .into_iter()
        .find(|item| item.path == path(&["demo", "probe"]))
        .expect("the probe is lowered");
    match probe.kind {
        MirItemKind::Function { mut function } => Ok(function.params.remove(0).slot),
        other => panic!("unexpected item {other:?}"),
    }
}

fn by_value(ty: MirType) -> MirSlot {
    MirSlot { ty, tag: OwnershipTag::ByValue }
}

#[test]
fn visibility_is_the_least_of_two() {
    let (private, local, public) = (Visibility::Private, Visibility::CrateLocal, Visibility::Public);
    assert_eq!(meet(public, public), public);
    assert_eq!(meet(public, local), local);
    assert_eq!(meet(local, public), local);
    assert_eq!(meet(private, public), private);
    assert_eq!(meet(public, private), private);
    assert_eq!(meet(local, private), private);
    assert_eq!(meet(local, local), local);
}

#[test]
fn walk_keeps_source_order_and_computes_visibility() {
    let raw = one_crate(
        "demo",
        vec![
            function("first", vec![], None),
            decl("hidden", Visibility::Private, RawDeclKind::Struct { fields: vec![], marks: plain() }),
            decl("CONSTANT", Visibility::Public, RawDeclKind::Other),
            decl("Alias", Visibility::CrateLocal, RawDeclKind::TypeAlias { aliased: named("i32") }),
        ],
        vec![
            module(
                "inner",
                Visibility::CrateLocal,
                vec![public_struct("Deep", vec![])],
                vec![module("secret", Visibility::Private, vec![function("f", vec![], None)], vec![])],
            ),
            module("api", Visibility::Public, vec![public_struct("Open", vec![])], vec![]),
        ],
    );
    let pack = parse(&primary(&["demo"]), &raw).unwrap();

    assert_eq!(pack.crates.len(), 1);
    assert_eq!(pack.crates[0].name, "demo");
    assert!(pack.crates[0].primary);

    let modules: Vec<(Vec<String>, Visibility, Visibility)> =
        pack.modules.iter().map(|m| (m.path.clone(), m.declared, m.visibility)).collect();
    assert_eq!(
        modules,
        vec![
            (path(&["demo"]), Visibility::Public, Visibility::Public),
            (path(&["demo", "inner"]), Visibility::CrateLocal, Visibility::CrateLocal),
            (path(&["demo", "inner", "secret"]), Visibility::Private, Visibility::Private),
            (path(&["demo", "api"]), Visibility::Public, Visibility::Public),
        ]
    );

    let items: Vec<(Vec<String>, ItemClass, Visibility)> =
        pack.items.iter().map(|i| (i.path.clone(), i.class, i.visibility)).collect();
    assert_eq!(
        items,
        vec![
            (path(&["demo", "first"]), ItemClass::Function, Visibility::Public),
            (path(&["demo", "Alias"]), ItemClass::TypeAlias, Visibility::CrateLocal),
            (path(&["demo", "inner", "Deep"]), ItemClass::StructOrEnum, Visibility::CrateLocal),
            (path(&["demo", "inner", "secret", "f"]), ItemClass::Function, Visibility::Private),
            (path(&["demo", "api", "Open"]), ItemClass::StructOrEnum, Visibility::Public),
        ]
    );
    assert!(pack.reexports.is_empty());
}

#[test]
fn only_public_items_of_primary_crates_are_lowered() {
    let raw = HirRawPack {
        crates: vec![
            RawCrate {
                name: "demo".to_string(),
                root: module(
                    "",
                    Visibility::Public,
                    vec![
                        function("shown", vec![], None),
                        decl(
                            "local",
                            Visibility::CrateLocal,
                            RawDeclKind::Function {
                                function: RawFunction {
                                    generics: vec![],
                                    params: vec![],
                                    ret: None,
                                    fallible: None,
                                    mode: ExecutionMode::Blocking,
                                },
                            },
                        ),
                    ],
                    vec![module(
                        "private_module",
                        Visibility::Private,
                        vec![function("buried", vec![], None)],
                        vec![],
                    )],
                ),
            },
            RawCrate {
                name: "dep".to_string(),
                root: module("", Visibility::Public, vec![function("other", vec![], None)], vec![]),
            },
        ],
    };
    let pack = parse(&primary(&["demo"]), &raw).unwrap();
    assert!(!pack.crates[1].primary);
    let doc = lower(&pack).unwrap();
    let paths: Vec<Vec<String>> = doc.items.iter().map(|i| i.path.clone()).collect();
    assert_eq!(paths, vec![path(&["demo", "shown"])]);
}

#[test]
fn reexport_chain_resolves_in_any_order() {
    let real = public_struct("Real", point_fields());
    let forward = vec![
        public_use("A", &["demo", "B"]),
        public_use("B", &["demo", "C"]),
        public_use("C", &["demo", "m", "Real"]),
    ];
    let backward = vec![
        public_use("C", &["demo", "m", "Real"]),
        public_use("B", &["demo", "C"]),
        public_use("A", &["demo", "B"]),
    ];
    for uses in [forward, backward] {
        let raw = one_crate(
            "demo",
            uses,
            vec![module(
                "m",
                Visibility::Public,
                vec![public_struct("Real", point_fields())],
                vec![],
            )],
        );
        let pack = parse(&primary(&["demo"]), &raw).unwrap();
        let found = resolve(&pack, &path(&["demo", "A"]));
        match found {
            Resolved::Item(i) => {
                assert_eq!(pack.items[i].path, path(&["demo", "m", "Real"]));
                assert_eq!(pack.items[i].decl, &real);
            }
            other => panic!("unexpected outcome {other:?}"),
        }
        assert_eq!(resolve(&pack, &path(&["demo", "m", "Real"])), found);
        assert_eq!(resolve(&pack, &path(&["demo", "Nothing"])), Resolved::Dangling);
    }
}

#[test]
fn reexport_can_dangle_without_error() {
    let raw = one_crate("demo", vec![public_use("Map", &["std", "collections", "HashMap"])], vec![]);
    let pack = parse(&primary(&["demo"]), &raw).unwrap();
    assert_eq!(pack.reexports.len(), 1);
    assert_eq!(pack.reexports[0].path, path(&["demo", "Map"]));
    assert_eq!(pack.reexports[0].target, path(&["std", "collections", "HashMap"]));
    assert_eq!(resolve(&pack, &path(&["demo", "Map"])), Resolved::Dangling);
}

#[test]
fn cyclic_reexport_is_an_error() {
    let own = one_crate("demo", vec![public_use("A", &["demo", "A"])], vec![]);
    assert_eq!(
        parse(&primary(&["demo"]), &own).unwrap_err(),
        ResolutionError::CyclicReexport { path: path(&["demo", "A"]) }
    );

    let ring = one_crate(
        "demo",
        vec![
            function("fine", vec![], None),
            public_use("A", &["demo", "B"]),
            public_use("B", &["demo", "C"]),
            public_use("C", &["demo", "A"]),
        ],
        vec![],
    );
    assert_eq!(
        parse(&primary(&["demo"]), &ring).unwrap_err(),
        ResolutionError::CyclicReexport { path: path(&["demo", "A"]) }
    );
}

#[test]
fn duplicate_names_are_an_error() {
    let raw = one_crate(
        "demo",
        vec![
            public_struct("Point", vec![]),
            function("draw", vec![], None),
            public_struct("Point", point_fields()),
        ],
        vec![],
    );
    assert_eq!(
        parse(&primary(&["demo"]), &raw).unwrap_err(),
        ResolutionError::DuplicateItem { path: path(&["demo", "Point"]) }
    );

    let with_use = one_crate(
        "demo",
        vec![public_struct("Point", vec![]), public_use("Point", &["other", "Point"])],
        vec![],
    );
    assert_eq!(
        parse(&primary(&["demo"]), &with_use).unwrap_err(),
        ResolutionError::DuplicateItem { path: path(&["demo", "Point"]) }
    );

    let twice = HirRawPack {
        crates: vec![
            RawCrate { name: "demo".to_string(), root: module("", Visibility::Public, vec![], vec![]) },
            RawCrate { name: "demo".to_string(), root: module("", Visibility::Public, vec![], vec![]) },
        ],
    };
    assert_eq!(
        parse(&primary(&["demo"]), &twice).unwrap_err(),
        ResolutionError::DuplicateItem { path: path(&["demo"]) }
    );

    let apart = one_crate(
        "demo",
        vec![public_struct("Point", vec![])],
        vec![module("m", Visibility::Public, vec![public_struct("Point", vec![])], vec![])],
    );
    assert!(parse(&primary(&["demo"]), &apart).is_ok());
}

#[test]
fn mirror_needs_its_target() {
    let mut mirror = public_struct("Uuid", vec![]);
    mirror.mirror = Some(path(&["uuid", "Uuid"]));
    let alone = one_crate("demo", vec![mirror], vec![]);
    assert_eq!(
        parse(&primary(&["demo"]), &alone).unwrap_err(),
        ResolutionError::UnknownMirrorTarget { path: path(&["demo", "Uuid"]) }
    );

    let mut mirror = decl(
        "LocalUuid",
        Visibility::Private,
        RawDeclKind::Struct { fields: vec![], marks: plain() },
    );
    mirror.mirror = Some(path(&["uuid", "Uuid"]));
    let raw = HirRawPack {
        crates: vec![
            RawCrate {
                name: "demo".to_string(),
                root: module(
                    "",
                    Visibility::Public,
                    vec![mirror, function("make", vec![], Some(named("LocalUuid")))],
                    vec![],
                ),
            },
            RawCrate {
                name: "uuid".to_string(),
                root: module("", Visibility::Public, vec![public_struct("Uuid", vec![])], vec![]),
            },
        ],
    };
    let pack = parse(&primary(&["demo"]), &raw).unwrap();
    assert_eq!(pack.items[0].path, path(&["demo", "LocalUuid"]));
    assert_eq!(pack.items[0].visibility, Visibility::Private);
    let doc = lower(&pack).unwrap();
    assert_eq!(doc.items.len(), 1);
    match &doc.items[0].kind {
        MirItemKind::Function { function } => assert_eq!(
            function.ret,
            MirSlot {
                ty: MirType::OpaqueHandle { name: "Uuid".to_string() },
                tag: OwnershipTag::Handle
            }
        ),
        other => panic!("unexpected item {other:?}"),
    }
}

#[test]
fn stable_id_spells_out_the_path() {
    assert_eq!(stable_id(&path(&["demo", "Point"])), "4_demo5_Point");
    assert_eq!(stable_id(&path(&["demo", "api", "greet"])), "4_demo3_api5_greet");
    assert_eq!(stable_id(&path(&["a_very_long_name"])), "16_a_very_long_name");
    assert_eq!(stable_id(&path(&[])), "");
    assert_eq!(stable_id(&path(&[""])), "0_");
    assert_ne!(stable_id(&path(&["a", "b"])), stable_id(&path(&["a_1_b"])));
    assert_ne!(stable_id(&path(&["ab"])), stable_id(&path(&["a", "b"])));
}

#[test]
fn point_lowers_to_a_record_by_value() {
    let raw = one_crate("demo", vec![public_struct("Point", point_fields())], vec![]);
    let pack = parse(&primary(&["demo"]), &raw).unwrap();
    let doc = lower(&pack).unwrap();
    assert_eq!(doc.items.len(), 1);
    assert_eq!(doc.items[0].id, "4_demo5_Point");
    assert_eq!(doc.items[0].path, path(&["demo", "Point"]));
    assert_eq!(
        doc.items[0].kind,
        MirItemKind::Data {
            slot: MirSlot {
                ty: MirType::Record {
                    name: "Point".to_string(),
                    fields: vec![
                        MirField { name: "x".to_string(), ty: int32() },
                        MirField { name: "y".to_string(), ty: int32() },
                    ],
                },
                tag: OwnershipTag::ByValue,
            }
        }
    );
    let made = generate(&generator_config(), &doc);
    assert!(made.entries.is_empty());
    assert_eq!(made.native_glue, "");
    assert_eq!(made.interface, "");
    assert_eq!(made.declarations.len(), 1);
    assert_eq!(made.declarations[0].item, "4_demo5_Point");
    assert_eq!(made.declarations[0].disposer, None);
    assert_eq!(made.managed, "class Point {\n  final int x;\n  final int y;\n}\n");
    assert!(!made.managed.contains("dispose"));
}

#[test]
fn handle_gets_a_pointer_and_one_disposer() {
    let raw = one_crate(
        "demo",
        vec![
            marked_struct("Engine", Marks { owned: false, borrowed: false, opaque: true }),
            function("open", vec![], Some(named("Engine"))),
        ],
        vec![],
    );
    let made = run(&primary(&["demo"]), &generator_config(), &raw).unwrap();

    let symbols: Vec<&str> = made.entries.iter().map(|e| e.symbol.as_str()).collect();
    assert_eq!(symbols, vec!["frb_4_demo4_open", "release_4_demo6_Engine"]);
    assert_eq!(made.entries[0].ret, AbiType::Pointer);
    assert!(made.entries[0].params.is_empty());
    assert!(!made.entries[0].release);
    assert!(made.entries[1].release);
    assert_eq!(made.entries[1].item, "4_demo6_Engine");
    assert_eq!(
        made.entries[1].params,
        vec![AbiParam { name: "ptr".to_string(), ty: AbiType::Pointer }]
    );
    assert_eq!(made.entries[1].ret, AbiType::Void);

    assert_eq!(
        made.native_glue,
        "#[no_mangle]\npub extern \"C\" fn frb_4_demo4_open() -> Ptr {\n    \
         wire::encode_handle(demo::open())\n}\n\
         #[no_mangle]\npub extern \"C\" fn release_4_demo6_Engine(ptr: Ptr) -> () {\n    \
         wire::release(ptr)\n}\n"
    );
    assert_eq!(
        made.interface,
        "void* frb_4_demo4_open();\nvoid release_4_demo6_Engine(void* ptr);\n"
    );
    assert_eq!(
        made.managed,
        "Engine open() => frb_4_demo4_open();\n\
         class Engine {\n  void dispose() => release_4_demo6_Engine(this);\n}\n"
    );
    assert_eq!(made.managed.matches("release_4_demo6_Engine").count(), 1);
    assert_eq!(made.declarations[0].disposer, None);
    assert_eq!(made.declarations[1].disposer, Some("release_4_demo6_Engine".to_string()));
    assert_eq!(made.request.header_path, "out/bridge.h");
    assert_eq!(made.request.output_dir, "lib/src");
    assert_eq!(made.request.symbols, path(&["frb_4_demo4_open", "release_4_demo6_Engine"]));
}

#[test]
fn disposers_follow_the_tag() {
    let raw = one_crate(
        "demo",
        vec![
            marked_struct("Plain", plain()),
            marked_struct("Moved", Marks { owned: true, borrowed: false, opaque: false }),
            marked_struct("Lent", Marks { owned: false, borrowed: true, opaque: false }),
            marked_struct("Knob", Marks { owned: false, borrowed: false, opaque: true }),
        ],
        vec![],
    );
    let made = run(&primary(&["demo"]), &generator_config(), &raw).unwrap();
    let disposers: Vec<(String, Option<String>)> =
        made.declarations.iter().map(|d| (d.item.clone(), d.disposer.clone())).collect();
    assert_eq!(
        disposers,
        vec![
            ("4_demo4_Knob".to_string(), Some("release_4_demo4_Knob".to_string())),
            ("4_demo4_Lent".to_string(), None),
            ("4_demo5_Moved".to_string(), Some("release_4_demo5_Moved".to_string())),
            ("4_demo5_Plain".to_string(), None),
        ]
    );
    let releases: Vec<&str> =
        made.entries.iter().filter(|e| e.release).map(|e| e.symbol.as_str()).collect();
    assert_eq!(releases, vec!["release_4_demo4_Knob", "release_4_demo5_Moved"]);
    assert_eq!(made.managed.matches("dispose()").count(), 2);
}

#[test]
fn identifiers_and_order_do_not_follow_the_source() {
    let one = one_crate(
        "demo",
        vec![
            function("zeta", vec![], None),
            public_struct("Alpha", vec![]),
            function("mid", vec![], None),
        ],
        vec![],
    );
    let other = one_crate(
        "demo",
        vec![
            function("mid", vec![], None),
            function("zeta", vec![], None),
            public_struct("Alpha", vec![]),
        ],
        vec![],
    );
    let config = primary(&["demo"]);
    let first = run(&config, &generator_config(), &one).unwrap();
    let second = run(&config, &generator_config(), &other).unwrap();
    assert_eq!(first, second);
    let ids: Vec<&str> = first.declarations.iter().map(|d| d.item.as_str()).collect();
    assert_eq!(ids, vec!["4_demo3_mid", "4_demo4_zeta", "4_demo5_Alpha"]);
    assert_eq!(
        run(&config, &generator_config(), &one).unwrap(),
        run(&config, &generator_config(), &one).unwrap()
    );
}

#[test]
fn renaming_another_module_keeps_the_identifier() {
    let with = |other_module: &str| {
        one_crate(
            "demo",
            vec![],
            vec![
                module("api", Visibility::Public, vec![function("greet", vec![], None)], vec![]),
                module(other_module, Visibility::Public, vec![function("bye", vec![], None)], vec![]),
            ],
        )
    };
    let config = primary(&["demo"]);
    let before_raw = with("old");
    let after_raw = with("new");
    let before = lower(&parse(&config, &before_raw).unwrap()).unwrap();
    let after = lower(&parse(&config, &after_raw).unwrap()).unwrap();
    let id_of = |doc: &frb_codegen::codegen::ir::mir::MirDocument, name: &str| {
        doc.items.iter().find(|i| i.path.last().unwrap() == name).unwrap().id.clone()
    };
    assert_eq!(id_of(&before, "greet"), "4_demo3_api5_greet");
    assert_eq!(id_of(&after, "greet"), "4_demo3_api5_greet");
    assert_eq!(id_of(&before, "bye"), "4_demo3_old3_bye");
    assert_eq!(id_of(&after, "bye"), "4_demo3_new3_bye");
}

#[test]
fn builtin_types_have_their_bridge_types() {
    assert_eq!(lower_param(named("i32"), vec![]).unwrap(), by_value(int32()));
    assert_eq!(
        lower_param(named("bool"), vec![]).unwrap(),
        by_value(MirType::Primitive(PrimitiveKind::Bool))
    );
    assert_eq!(
        lower_param(named("f64"), vec![]).unwrap(),
        by_value(MirType::Primitive(PrimitiveKind::F64))
    );
    assert_eq!(
        lower_param(named("()"), vec![]).unwrap(),
        by_value(MirType::Primitive(PrimitiveKind::Unit))
    );
    assert_eq!(lower_param(named("String"), vec![]).unwrap(), by_value(MirType::Str));
    assert_eq!(
        lower_param(generic("Vec", vec![named("u8")]), vec![]).unwrap(),
        by_value(MirType::Bytes)
    );
    assert_eq!(
        lower_param(generic("Vec", vec![named("i32")]), vec![]).unwrap(),
        by_value(MirType::List(Box::new(int32())))
    );
    assert_eq!(
        lower_param(generic("Option", vec![named("String")]), vec![]).unwrap(),
        by_value(MirType::Optional(Box::new(MirType::Str)))
    );
    assert_eq!(
        lower_param(generic("HashMap", vec![named("String"), named("i32")]), vec![]).unwrap(),
        by_value(MirType::Dict(Box::new(MirType::Str), Box::new(int32())))
    );
    assert_eq!(
        lower_param(generic("BTreeMap", vec![named("i32"), named("i32")]), vec![]).unwrap(),
        by_value(MirType::Dict(Box::new(int32()), Box::new(int32())))
    );
    assert_eq!(lower_param(generic("Box", vec![named("i32")]), vec![]).unwrap(), by_value(int32()));
    assert_eq!(
        lower_param(
            generic("Vec", vec![generic("Option", vec![generic("Vec", vec![named("u8")])])]),
            vec![]
        )
        .unwrap(),
        by_value(MirType::List(Box::new(MirType::Optional(Box::new(MirType::Bytes)))))
    );
}

#[test]
fn composites_are_lowered_with_their_parts() {
    let point = MirType::Record {
        name: "Point".to_string(),
        fields: vec![
            MirField { name: "x".to_string(), ty: int32() },
            MirField { name: "y".to_string(), ty: int32() },
        ],
    };
    assert_eq!(
        lower_param(named("Point"), vec![public_struct("Point", point_fields())]).unwrap(),
        by_value(MirType::Record {
            name: "Point".to_string(),
            fields: vec![
                MirField { name: "x".to_string(), ty: int32() },
                MirField { name: "y".to_string(), ty: int32() },
            ],
        })
    );
    let line = lower_param(
        named("Line"),
        vec![
            public_struct("Point", point_fields()),
            public_struct("Line", vec![field("from", named("Point")), field("to", named("Way"))]),
            decl("Way", Visibility::Public, RawDeclKind::TypeAlias { aliased: named("Point") }),
        ],
    )
    .unwrap();
    match line.ty {
        MirType::Record { name, fields } => {
            assert_eq!(name, "Line");
            assert_eq!(fields[0].ty, point);
            assert_eq!(fields[1].ty, point);
        }
        other => panic!("unexpected type {other:?}"),
    }

    let shape = decl(
        "Shape",
        Visibility::Public,
        RawDeclKind::Enum {
            variants: vec![
                RawVariant { name: "Empty".to_string(), payload: RawPayload::Unit },
                RawVariant {
                    name: "Circle".to_string(),
                    payload: RawPayload::Tuple { types: vec![named("f64")] },
                },
                RawVariant {
                    name: "Rect".to_string(),
                    payload: RawPayload::Struct {
                        fields: vec![field("w", named("u32")), field("h", named("u32"))],
                    },
                },
            ],
            marks: plain(),
        },
    );
    assert_eq!(
        lower_param(named("Shape"), vec![shape]).unwrap(),
        by_value(MirType::Enum {
            name: "Shape".to_string(),
            variants: vec![
                MirVariant { name: "Empty".to_string(), payload: MirPayload::Unit },
                MirVariant {
                    name: "Circle".to_string(),
                    payload: MirPayload::Tuple {
                        types: vec![MirType::Primitive(PrimitiveKind::F64)]
                    },
                },
                MirVariant {
                    name: "Rect".to_string(),
                    payload: MirPayload::Struct {
                        fields: vec![
                            MirField {
                                name: "w".to_string(),
                                ty: MirType::Primitive(PrimitiveKind::U32)
                            },
                            MirField {
                                name: "h".to_string(),
                                ty: MirType::Primitive(PrimitiveKind::U32)
                            },
                        ]
                    },
                },
            ],
        })
    );
}

#[test]
fn positions_carry_their_tag() {
    let slot = lower_param(reference(named("String")), vec![]).unwrap();
    assert_eq!(slot, MirSlot { ty: MirType::Str, tag: OwnershipTag::Borrowed });

    let moved = marked_struct("Moved", Marks { owned: true, borrowed: false, opaque: false });
    let slot = lower_param(named("Moved"), vec![moved]).unwrap();
    assert_eq!(slot.tag, OwnershipTag::Owned);

    let knob = marked_struct("Knob", Marks { owned: false, borrowed: false, opaque: true });
    assert_eq!(
        lower_param(named("Knob"), vec![knob]).unwrap(),
        MirSlot { ty: MirType::OpaqueHandle { name: "Knob".to_string() }, tag: OwnershipTag::Handle }
    );
    assert_eq!(
        lower_param(RawType::Pointer { handle: Some("Socket".to_string()) }, vec![]).unwrap(),
        MirSlot {
            ty: MirType::OpaqueHandle { name: "Socket".to_string() },
            tag: OwnershipTag::Handle
        }
    );
}

fn unsupported(construct: &str) -> LoweringError {
    LoweringError::UnsupportedType { item: path(&["demo", "probe"]), construct: construct.to_string() }
}

#[test]
fn what_cannot_cross_is_refused() {
    assert_eq!(
        lower_param(RawType::TraitObject { name: "Display".to_string() }, vec![]).unwrap_err(),
        unsupported("Display")
    );
    assert_eq!(lower_param(RawType::Pointer { handle: None }, vec![]).unwrap_err(), unsupported("*"));
    assert_eq!(lower_param(named("Missing"), vec![]).unwrap_err(), unsupported("Missing"));
    assert_eq!(
        lower_param(generic("Vec", vec![reference(named("i32"))]), vec![]).unwrap_err(),
        unsupported("&")
    );
    assert_eq!(
        lower_param(generic("Rc", vec![named("i32")]), vec![]).unwrap_err(),
        unsupported("Rc")
    );
    assert_eq!(
        lower_param(generic("i32", vec![named("i32")]), vec![]).unwrap_err(),
        unsupported("i32")
    );
    assert_eq!(
        lower_param(generic("Vec", vec![named("i32"), named("i32"), named("i32")]), vec![])
            .unwrap_err(),
        unsupported("Vec")
    );
    assert_eq!(
        lower_param(named("helper"), vec![function("helper", vec![], None)]).unwrap_err(),
        unsupported("helper")
    );
    let list = public_struct(
        "Node",
        vec![field("next", generic("Option", vec![generic("Box", vec![named("Node")])]))],
    );
    assert_eq!(
        lower(&parse(&primary(&["demo"]), &one_crate("demo", vec![list], vec![])).unwrap())
            .unwrap_err(),
        LoweringError::UnsupportedType {
            item: path(&["demo", "Node"]),
            construct: "Node".to_string()
        }
    );
}

#[test]
fn conflicting_marks_are_refused() {
    let both = marked_struct("Both", Marks { owned: true, borrowed: true, opaque: false });
    assert_eq!(
        lower(&parse(&primary(&["demo"]), &one_crate("demo", vec![both], vec![])).unwrap())
            .unwrap_err(),
        LoweringError::ConflictingOwnership {
            item: path(&["demo", "Both"]),
            construct: "Both".to_string()
        }
    );
    let knob = marked_struct("Knob", Marks { owned: false, borrowed: false, opaque: true });
    assert_eq!(
        lower_param(reference(named("Knob")), vec![knob]).unwrap_err(),
        LoweringError::ConflictingOwnership {
            item: path(&["demo", "probe"]),
            construct: "&".to_string()
        }
    );
}

#[test]
fn generics_need_a_binding() {
    let with = |binding: Option<RawType>| {
        let raw = one_crate(
            "demo",
            vec![decl(
                "wrap",
                Visibility::Public,
                RawDeclKind::Function {
                    function: RawFunction {
                        generics: vec![RawGeneric { name: "T".to_string(), binding }],
                        params: vec![field("value", generic("Vec", vec![named("T")]))],
                        ret: Some(named("T")),
                        fallible: Some(named("String")),
                        mode: ExecutionMode::Asynchronous,
                    },
                },
            )],
            vec![],
        );
        lower(&parse(&primary(&["demo"]), &raw).unwrap())
    };
    assert_eq!(
        with(None).unwrap_err(),
        LoweringError::UnresolvedGeneric {
            item: path(&["demo", "wrap"]),
            construct: "T".to_string()
        }
    );
    let doc = with(Some(named("u8"))).unwrap();
    match &doc.items[0].kind {
        MirItemKind::Function { function } => {
            assert_eq!(function.params[0].slot, by_value(MirType::Bytes));
            assert_eq!(function.ret, by_value(MirType::Primitive(PrimitiveKind::U8)));
            assert_eq!(function.fallible, Some(MirType::Str));
            assert_eq!(function.mode, ExecutionMode::Asynchronous);
        }
        other => panic!("unexpected item {other:?}"),
    }
}

#[test]
fn functions_are_written_out_in_all_three_artifacts() {
    let raw = one_crate(
        "demo",
        vec![
            public_struct("Point", point_fields()),
            public_struct(
                "Big",
                vec![
                    field("a", named("i32")),
                    field("b", named("i32")),
                    field("c", named("i32")),
                    field("d", named("i32")),
                    field("e", named("i32")),
                ],
            ),
        ],
        vec![module(
            "api",
            Visibility::Public,
            vec![
                public_use("Point", &["demo", "Point"]),
                public_use("Big", &["demo", "Big"]),
                decl(
                    "draw",
                    Visibility::Public,
                    RawDeclKind::Function {
                        function: RawFunction {
                            generics: vec![],
                            params: vec![
                                field("at", named("Point")),
                                field("label", reference(named("String"))),
                                field("data", generic("Vec", vec![named("u8")])),
                                field("big", named("Big")),
                                field("scale", named("f64")),
                            ],
                            ret: Some(named("bool")),
                            fallible: Some(named("String")),
                            mode: ExecutionMode::Asynchronous,
                        },
                    },
                ),
            ],
            vec![],
        )],
    );
    let made = run(&primary(&["demo"]), &generator_config(), &raw).unwrap();
    assert_eq!(made.entries.len(), 1);
    let params: Vec<(&str, AbiType)> =
        made.entries[0].params.iter().map(|p| (p.name.as_str(), p.ty)).collect();
    assert_eq!(
        params,
        vec![
            ("at_x", AbiType::Scalar(PrimitiveKind::I32)),
            ("at_y", AbiType::Scalar(PrimitiveKind::I32)),
            ("label", AbiType::Pointer),
            ("data_len", AbiType::Length),
            ("data_ptr", AbiType::Pointer),
            ("big", AbiType::Pointer),
            ("scale", AbiType::Scalar(PrimitiveKind::F64)),
            ("error_out", AbiType::Pointer),
        ]
    );
    assert_eq!(made.entries[0].ret, AbiType::Scalar(PrimitiveKind::Bool));
    assert_eq!(
        made.native_glue,
        "#[no_mangle]\npub extern \"C\" fn frb_4_demo3_api4_draw(at_x: i32, at_y: i32, label: Ptr, \
         data_len: usize, data_ptr: Ptr, big: Ptr, scale: f64, error_out: Ptr) -> bool {\n    \
         wire::encode_value(demo::api::draw(wire::decode_value(at_x, at_y), \
         wire::decode_borrowed(label), wire::decode_value(data_len, data_ptr), \
         wire::decode_value(big), wire::decode_value(scale)))\n}\n"
    );
    assert_eq!(
        made.interface,
        "bool frb_4_demo3_api4_draw(int32_t at_x, int32_t at_y, void* label, uintptr_t data_len, \
         void* data_ptr, void* big, double scale, void* error_out);\n"
    );
    let ids: Vec<&str> = made.declarations.iter().map(|d| d.item.as_str()).collect();
    assert_eq!(ids, vec!["4_demo3_Big", "4_demo3_api4_draw", "4_demo5_Point"]);
    assert_eq!(
        made.declarations[1].text,
        "Future<bool> draw(Point at, String label, Uint8List data, Big big, double scale) => \
         frb_4_demo3_api4_draw(at, label, data, big, scale);\n"
    );
    assert_eq!(made.declarations.len(), 3);
}

#[test]
fn enums_keep_the_shape_of_their_variants() {
    let raw = one_crate(
        "demo",
        vec![decl(
            "Shape",
            Visibility::Public,
            RawDeclKind::Enum {
                variants: vec![
                    RawVariant { name: "Empty".to_string(), payload: RawPayload::Unit },
                    RawVariant {
                        name: "Pair".to_string(),
                        payload: RawPayload::Tuple {
                            types: vec![named("f64"), generic("Option", vec![named("String")])],
                        },
                    },
                    RawVariant {
                        name: "Rect".to_string(),
                        payload: RawPayload::Struct {
                            fields: vec![field(
                                "sizes",
                                generic("HashMap", vec![named("String"), named("u32")]),
                            )],
                        },
                    },
                ],
                marks: Marks { owned: true, borrowed: false, opaque: false },
            },
        )],
        vec![],
    );
    let made = run(&primary(&["demo"]), &generator_config(), &raw).unwrap();
    assert_eq!(
        made.managed,
        "sealed class Shape {\n  void dispose() => release_4_demo5_Shape(this);\n}\n\
         class Shape_Empty extends Shape {\n}\n\
         class Shape_Pair extends Shape {\n  final double field0;\n  final String? field1;\n}\n\
         class Shape_Rect extends Shape {\n  final Map<String, int> sizes;\n}\n"
    );
}

#[test]
fn run_stops_at_the_first_stage_that_fails() {
    let cyclic = one_crate("demo", vec![public_use("A", &["demo", "A"])], vec![]);
    assert_eq!(
        run(&primary(&["demo"]), &generator_config(), &cyclic).unwrap_err(),
        PipelineError::Resolution(ResolutionError::CyclicReexport { path: path(&["demo", "A"]) })
    );
    let unsupported = one_crate(
        "demo",
        vec![function("f", vec![field("x", RawType::Pointer { handle: None })], None)],
        vec![],
    );
    assert_eq!(
        run(&primary(&["demo"]), &generator_config(), &unsupported).unwrap_err(),
        PipelineError::Lowering(LoweringError::UnsupportedType {
            item: path(&["demo", "f"]),
            construct: "*".to_string()
        })
    );
    let empty = HirRawPack { crates: vec![] };
    let made = run(&primary(&[]), &generator_config(), &empty).unwrap();
    assert!(made.entries.is_empty() && made.declarations.is_empty());
    assert_eq!((made.native_glue.as_str(), made.interface.as_str(), made.managed.as_str()), ("", "", ""));
}

#[test]
fn failed_tools_end_the_run() {
    let fine = CommandOutput { success: true, stdout: vec![], stderr: b"warning".to_vec() };
    assert_eq!(confirm_emission(&fine), Ok(()));
    let broken = CommandOutput { success: false, stdout: vec![], stderr: b"no header".to_vec() };
    assert_eq!(
        confirm_emission(&broken),
        Err(PipelineError::Emission("no header".to_string()))
    );
}

#[test]
fn failed_extraction_is_reported_word_for_word() {
    let failed: Result<HirRawPack, String> = Err("cargo expand: no such crate".to_string());
    assert_eq!(
        run_from(&primary(&["demo"]), &generator_config(), &failed).unwrap_err(),
        PipelineError::Extraction("cargo expand: no such crate".to_string())
    );
    let fine: Result<HirRawPack, String> =
        Ok(one_crate("demo", vec![public_struct("Point", point_fields())], vec![]));
    let made = run_from(&primary(&["demo"]), &generator_config(), &fine).unwrap();
    assert_eq!(made.declarations.len(), 1);
}
