use metagen::generate_types::TypeGenerator;
use metagen::metadata::{
    Field, GenError, Metadata, Primitive, RegistryEntry, TypeEntry, TypePath, TypeRegistry,
    TypeShape, VersionedMetadata,
};
use metagen::generate_runtime::RuntimeGenerator;

fn ent(
    id: u32,
    ns: &[&str],
    ident: Option<&str>,
    params: Vec<u32>,
    shape: TypeShape,
) -> RegistryEntry {
    RegistryEntry {
        id,
        ty: TypeEntry {
            path: TypePath {
                namespace: ns.iter().map(|x| x.to_string()).collect(),
                ident: ident.map(|x| x.to_string()),
            },
            type_params: params,
            shape,
        },
    }
}

fn prim(id: u32, p: Primitive) -> RegistryEntry {
    ent(id, &[], None, vec![], TypeShape::Primitive(p))
}

fn nf(name: &str, ty: u32) -> Field {
    Field { name: Some(name.to_string()), ty }
}

fn uf(ty: u32) -> Field {
    Field { name: None, ty }
}

#[test]
fn mixed_field_naming_is_rejected() {
    let registry = TypeRegistry {
        entries: vec![
            ent(
                1,
                &["tests"],
                Some("S"),
                vec![],
                TypeShape::Composite(vec![nf("a", 2), uf(2)]),
            ),
            prim(2, Primitive::Bool),
        ],
    };
    let generator = TypeGenerator::new(&registry);
    assert_eq!(generator.generate("root"), Err(GenError::InconsistentFieldNaming));
}

#[test]
fn dangling_reference_is_rejected() {
    let registry = TypeRegistry {
        entries: vec![ent(
            1,
            &["tests"],
            Some("S"),
            vec![],
            TypeShape::Composite(vec![nf("a", 9)]),
        )],
    };
    let generator = TypeGenerator::new(&registry);
    assert_eq!(generator.generate("root"), Err(GenError::DanglingTypeReference(9)));
}

#[test]
fn missing_declared_name_is_rejected() {
    let registry = TypeRegistry {
        entries: vec![
            ent(1, &["tests"], None, vec![], TypeShape::Composite(vec![nf("a", 2)])),
            prim(2, Primitive::Bool),
        ],
    };
    let generator = TypeGenerator::new(&registry);
    assert_eq!(generator.generate("root"), Err(GenError::MissingDeclaredName(1)));
}

#[test]
fn unrepresentable_primitive_is_rejected() {
    let registry = TypeRegistry {
        entries: vec![
            ent(1, &["tests"], Some("S"), vec![], TypeShape::Composite(vec![nf("a", 2)])),
            prim(2, Primitive::U256),
        ],
    };
    let generator = TypeGenerator::new(&registry);
    assert_eq!(generator.generate("root"), Err(GenError::UnrepresentablePrimitive));
}

#[test]
fn cyclic_definition_is_rejected() {
    // A tuple that contains itself would recurse forever without the
    // visited-path guard.
    let registry = TypeRegistry {
        entries: vec![
            ent(1, &["tests"], Some("S"), vec![], TypeShape::Composite(vec![nf("a", 2)])),
            ent(2, &[], None, vec![], TypeShape::Tuple(vec![2])),
        ],
    };
    let generator = TypeGenerator::new(&registry);
    assert_eq!(generator.generate("root"), Err(GenError::CyclicTypeDefinition(2)));
}

#[test]
fn unsupported_version_is_rejected() {
    assert_eq!(
        RuntimeGenerator::new(VersionedMetadata::Unsupported(12)).err(),
        Some(GenError::UnsupportedSchemaVersion(12))
    );
    let md = Metadata { types: TypeRegistry { entries: vec![] }, modules: vec![] };
    assert!(RuntimeGenerator::new(VersionedMetadata::V13(md)).is_ok());
}
