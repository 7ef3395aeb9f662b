use metagen::decls::{DeclFields, ResolvedPrimitive, TypeDecl, TypeExpr, TypesModule, VariantDecl};
use metagen::generate_types::{TypeGenerator, TypeParameter};
use metagen::metadata::{
    Field, Primitive, RegistryEntry, TypeEntry, TypePath, TypeRegistry, TypeShape, Variant,
};

fn ent(
    id: u32,
    ns: &[&str],
    ident: Option<&str>,
    params: Vec<u32>,
    shape: TypeShape,
) -> RegistryEntry {
    RegistryEntry {
        id,
        ty: TypeEntry {
            path: TypePath {
                namespace: ns.iter().map(|x| x.to_string()).collect(),
                ident: ident.map(|x| x.to_string()),
            },
            type_params: params,
            shape,
        },
    }
}

fn prim(id: u32, p: Primitive) -> RegistryEntry {
    ent(id, &[], None, vec![], TypeShape::Primitive(p))
}

fn nf(name: &str, ty: u32) -> Field {
    Field { name: Some(name.to_string()), ty }
}

fn uf(ty: u32) -> Field {
    Field { name: None, ty }
}

fn option_entry(id: u32, param: u32) -> RegistryEntry {
    ent(
        id,
        &[],
        Some("Option"),
        vec![param],
        TypeShape::Variant(vec![
            Variant { name: "None".to_string(), fields: vec![] },
            Variant { name: "Some".to_string(), fields: vec![uf(param)] },
        ]),
    )
}

#[test]
fn generate_struct_with_primitives() {
    let registry = TypeRegistry {
        entries: vec![
            ent(
                1,
                &["tests"],
                Some("S"),
                vec![],
                TypeShape::Composite(vec![nf("a", 2), nf("b", 3), nf("c", 4)]),
            ),
            prim(2, Primitive::Bool),
            prim(3, Primitive::U32),
            prim(4, Primitive::Char),
        ],
    };
    let generator = TypeGenerator::new(&registry);
    let types = generator.generate("root").unwrap();
    assert_eq!(
        types,
        TypesModule {
            name: "root".to_string(),
            decls: vec![TypeDecl::Record {
                name: "S".to_string(),
                params: 0,
                fields: DeclFields::Named(vec![
                    ("a".to_string(), TypeExpr::Primitive(ResolvedPrimitive::Bool)),
                    ("b".to_string(), TypeExpr::Primitive(ResolvedPrimitive::U32)),
                    ("c".to_string(), TypeExpr::Primitive(ResolvedPrimitive::Char)),
                ]),
            }],
        }
    )
}

#[test]
fn generate_struct_with_a_struct_field() {
    let registry = TypeRegistry {
        entries: vec![
            ent(
                1,
                &["tests"],
                Some("Parent"),
                vec![],
                TypeShape::Composite(vec![nf("a", 2), nf("b", 3)]),
            ),
            prim(2, Primitive::Bool),
            ent(3, &["tests"], Some("Child"), vec![], TypeShape::Composite(vec![nf("a", 4)])),
            prim(4, Primitive::I32),
        ],
    };
    let generator = TypeGenerator::new(&registry);
    let types = generator.generate("root").unwrap();
    assert_eq!(
        types,
        TypesModule {
            name: "root".to_string(),
            decls: vec![
                TypeDecl::Record {
                    name: "Parent".to_string(),
                    params: 0,
                    fields: DeclFields::Named(vec![
                        ("a".to_string(), TypeExpr::Primitive(ResolvedPrimitive::Bool)),
                        ("b".to_string(), TypeExpr::Path("Child".to_string(), vec![])),
                    ]),
                },
                TypeDecl::Record {
                    name: "Child".to_string(),
                    params: 0,
                    fields: DeclFields::Named(vec![(
                        "a".to_string(),
                        TypeExpr::Primitive(ResolvedPrimitive::I32),
                    )]),
                },
            ],
        }
    )
}

#[test]
fn generate_tuple_struct() {
    let registry = TypeRegistry {
        entries: vec![
            ent(
                1,
                &["tests"],
                Some("Parent"),
                vec![],
                TypeShape::Composite(vec![uf(2), uf(3)]),
            ),
            prim(2, Primitive::Bool),
            ent(3, &["tests"], Some("Child"), vec![], TypeShape::Composite(vec![uf(4)])),
            prim(4, Primitive::I32),
        ],
    };
    let generator = TypeGenerator::new(&registry);
    let types = generator.generate("root").unwrap();
    assert_eq!(
        types,
        TypesModule {
            name: "root".to_string(),
            decls: vec![
                TypeDecl::Record {
                    name: "Parent".to_string(),
                    params: 0,
                    fields: DeclFields::Unnamed(vec![
                        TypeExpr::Primitive(ResolvedPrimitive::Bool),
                        TypeExpr::Path("Child".to_string(), vec![]),
                    ]),
                },
                TypeDecl::Record {
                    name: "Child".to_string(),
                    params: 0,
                    fields: DeclFields::Unnamed(vec![TypeExpr::Primitive(ResolvedPrimitive::I32)]),
                },
            ],
        }
    )
}

#[test]
fn generate_enum() {
    let registry = TypeRegistry {
        entries: vec![
            ent(
                1,
                &["tests"],
                Some("E"),
                vec![],
                TypeShape::Variant(vec![
                    Variant { name: "A".to_string(), fields: vec![] },
                    Variant { name: "B".to_string(), fields: vec![uf(2)] },
                    Variant { name: "C".to_string(), fields: vec![nf("a", 3)] },
                ]),
            ),
            prim(2, Primitive::Bool),
            prim(3, Primitive::U32),
        ],
    };
    let generator = TypeGenerator::new(&registry);
    let types = generator.generate("root").unwrap();
    assert_eq!(
        types,
        TypesModule {
            name: "root".to_string(),
            decls: vec![TypeDecl::TaggedUnion {
                name: "E".to_string(),
                params: 0,
                variants: vec![
                    VariantDecl { name: "A".to_string(), fields: None },
                    VariantDecl {
                        name: "B".to_string(),
                        fields: Some(DeclFields::Unnamed(vec![TypeExpr::Primitive(
                            ResolvedPrimitive::Bool,
                        )])),
                    },
                    VariantDecl {
                        name: "C".to_string(),
                        fields: Some(DeclFields::Named(vec![(
                            "a".to_string(),
                            TypeExpr::Primitive(ResolvedPrimitive::U32),
                        )])),
                    },
                ],
            }],
        }
    )
}

#[test]
fn generate_array_field() {
    let registry = TypeRegistry {
        entries: vec![
            ent(1, &["tests"], Some("S"), vec![], TypeShape::Composite(vec![nf("a", 2)])),
            ent(2, &[], None, vec![], TypeShape::Array(3, 32)),
            prim(3, Primitive::U8),
        ],
    };
    let generator = TypeGenerator::new(&registry);
    let types = generator.generate("root").unwrap();
    assert_eq!(
        types,
        TypesModule {
            name: "root".to_string(),
            decls: vec![TypeDecl::Record {
                name: "S".to_string(),
                params: 0,
                fields: DeclFields::Named(vec![(
                    "a".to_string(),
                    TypeExpr::Array(
                        Box::new(TypeExpr::Primitive(ResolvedPrimitive::U8)),
                        32,
                    ),
                )]),
            }],
        }
    )
}

#[test]
fn option_fields() {
    let registry = TypeRegistry {
        entries: vec![
            ent(
                1,
                &["tests"],
                Some("S"),
                vec![],
                TypeShape::Composite(vec![nf("a", 2), nf("b", 4)]),
            ),
            option_entry(2, 3),
            prim(3, Primitive::Bool),
            option_entry(4, 5),
            prim(5, Primitive::U32),
        ],
    };
    let generator = TypeGenerator::new(&registry);
    let types = generator.generate("root").unwrap();
    assert_eq!(
        types,
        TypesModule {
            name: "root".to_string(),
            decls: vec![TypeDecl::Record {
                name: "S".to_string(),
                params: 0,
                fields: DeclFields::Named(vec![
                    (
                        "a".to_string(),
                        TypeExpr::Path(
                            "Option".to_string(),
                            vec![TypeExpr::Primitive(ResolvedPrimitive::Bool)],
                        ),
                    ),
                    (
                        "b".to_string(),
                        TypeExpr::Path(
                            "Option".to_string(),
                            vec![TypeExpr::Primitive(ResolvedPrimitive::U32)],
                        ),
                    ),
                ]),
            }],
        }
    )
}

#[test]
fn generics() {
    let registry = TypeRegistry {
        entries: vec![
            ent(1, &["tests"], Some("Bar"), vec![], TypeShape::Composite(vec![nf("b", 2)])),
            ent(2, &["tests"], Some("Foo"), vec![3], TypeShape::Composite(vec![nf("a", 3)])),
            prim(3, Primitive::U32),
        ],
    };
    let generator = TypeGenerator::new(&registry);
    let types = generator.generate("root").unwrap();
    assert_eq!(
        types,
        TypesModule {
            name: "root".to_string(),
            decls: vec![
                TypeDecl::Record {
                    name: "Bar".to_string(),
                    params: 0,
                    fields: DeclFields::Named(vec![(
                        "b".to_string(),
                        TypeExpr::Path(
                            "Foo".to_string(),
                            vec![TypeExpr::Primitive(ResolvedPrimitive::U32)],
                        ),
                    )]),
                },
                TypeDecl::Record {
                    name: "Foo".to_string(),
                    params: 1,
                    fields: DeclFields::Named(vec![("a".to_string(), TypeExpr::Param(0))]),
                },
            ],
        }
    )
}

#[test]
fn generics_nested() {
    let registry = TypeRegistry {
        entries: vec![
            ent(1, &["tests"], Some("Bar"), vec![2], TypeShape::Composite(vec![nf("b", 3)])),
            prim(2, Primitive::Bool),
            ent(
                3,
                &["tests"],
                Some("Foo"),
                vec![2, 4],
                TypeShape::Composite(vec![nf("a", 2), nf("b", 5)]),
            ),
            prim(4, Primitive::U32),
            option_entry(5, 6),
            ent(6, &[], None, vec![], TypeShape::Tuple(vec![2, 4])),
        ],
    };
    let generator = TypeGenerator::new(&registry);
    let types = generator.generate("root").unwrap();
    assert_eq!(
        types,
        TypesModule {
            name: "root".to_string(),
            decls: vec![
                TypeDecl::Record {
                    name: "Bar".to_string(),
                    params: 1,
                    fields: DeclFields::Named(vec![(
                        "b".to_string(),
                        TypeExpr::Path(
                            "Foo".to_string(),
                            vec![
                                TypeExpr::Param(0),
                                TypeExpr::Primitive(ResolvedPrimitive::U32),
                            ],
                        ),
                    )]),
                },
                TypeDecl::Record {
                    name: "Foo".to_string(),
                    params: 2,
                    fields: DeclFields::Named(vec![
                        ("a".to_string(), TypeExpr::Param(0)),
                        (
                            "b".to_string(),
                            TypeExpr::Path(
                                "Option".to_string(),
                                vec![TypeExpr::Tuple(vec![
                                    TypeExpr::Param(0),
                                    TypeExpr::Param(1),
                                ])],
                            ),
                        ),
                    ]),
                },
            ],
        }
    )
}

#[test]
fn generate_twice_is_identical() {
    let registry = TypeRegistry {
        entries: vec![
            ent(
                1,
                &["tests"],
                Some("S"),
                vec![],
                TypeShape::Composite(vec![nf("a", 2), nf("b", 3)]),
            ),
            prim(2, Primitive::Bool),
            prim(3, Primitive::U32),
        ],
    };
    let generator = TypeGenerator::new(&registry);
    let first = generator.generate("root").unwrap();
    let second = generator.generate("root").unwrap();
    assert_eq!(first, second);
}

#[test]
fn one_decl_per_declarable_entry() {
    // One composite with a namespace, one prelude (empty-namespace) variant,
    // one primitive and one structural entry: exactly one declaration.
    let registry = TypeRegistry {
        entries: vec![
            ent(1, &["tests"], Some("S"), vec![], TypeShape::Composite(vec![nf("a", 3)])),
            option_entry(2, 3),
            prim(3, Primitive::Bool),
            ent(4, &[], None, vec![], TypeShape::Tuple(vec![3, 3])),
        ],
    };
    let generator = TypeGenerator::new(&registry);
    let types = generator.generate("root").unwrap();
    assert_eq!(types.decls.len(), 1);
    match &types.decls[0] {
        TypeDecl::Record { name, .. } => assert_eq!(name, "S"),
        _ => panic!("expected a record declaration"),
    }
}

#[test]
fn resolve_type_prefers_scope_over_registry() {
    let registry = TypeRegistry {
        entries: vec![prim(1, Primitive::U32)],
    };
    let generator = TypeGenerator::new(&registry);
    let scope = vec![TypeParameter { concrete_type_id: 1, position: 0 }];
    assert_eq!(generator.resolve_type(1, &scope).unwrap(), TypeExpr::Param(0));
    assert_eq!(
        generator.resolve_type(1, &vec![]).unwrap(),
        TypeExpr::Primitive(ResolvedPrimitive::U32)
    );
}
