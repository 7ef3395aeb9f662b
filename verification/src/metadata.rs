//! The input data model: a decoded metadata descriptor.
//!
//! A descriptor owns a [`TypeRegistry`] — an ordered mapping from numeric
//! identifier to [`TypeEntry`] — and a list of remote modules, each with
//! callable actions and emitted events. Everything here is immutable for the
//! duration of a generation run.

use vstd::prelude::*;

verus! {

/// The reason a generation run aborted. Every error is fatal: a partially
/// generated type graph is unsafe to use, so generation is all-or-nothing.
#[derive(Debug, Clone, Copy, PartialEq, Eq, Structural)]
pub enum GenError {
    /// The descriptor's version is not the one schema version understood here.
    UnsupportedSchemaVersion(u32),
    /// An identifier has no matching registry entry.
    DanglingTypeReference(u32),
    /// A composite or tagged-union entry lacks a declared name.
    MissingDeclaredName(u32),
    /// A field list mixes named and unnamed fields.
    InconsistentFieldNaming,
    /// A primitive kind with no representable target type (the 256-bit widths).
    UnrepresentablePrimitive,
    /// A type definition reaches itself again during resolution.
    CyclicTypeDefinition(u32),
}

/// A primitive type kind as it appears in the registry.
#[derive(Debug, Clone, Copy, PartialEq, Eq, Structural)]
pub enum Primitive {
    Bool,
    Char,
    Str,
    U8,
    U16,
    U32,
    U64,
    U128,
    U256,
    I8,
    I16,
    I32,
    I64,
    I128,
    I256,
}

/// A type's path: ordered namespace segments plus an optional declared name.
/// An entry whose namespace is empty is a host-builtin (prelude) type: it is
/// referenced by name but never declared locally.
#[derive(Debug, PartialEq, Eq)]
pub struct TypePath {
    pub namespace: Vec<String>,
    pub ident: Option<String>,
}

/// A field of a composite or of a tagged-union alternative: an optional name
/// and a type reference into the registry.
#[derive(Debug, PartialEq, Eq)]
pub struct Field {
    pub name: Option<String>,
    pub ty: u32,
}

/// One named alternative of a tagged-union definition.
#[derive(Debug, PartialEq, Eq)]
pub struct Variant {
    pub name: String,
    pub fields: Vec<Field>,
}

/// The shape of a type definition. Composites and tagged unions produce
/// standalone declarations; the structural shapes only ever appear inline.
#[derive(Debug, PartialEq, Eq)]
pub enum TypeShape {
    Composite(Vec<Field>),
    Variant(Vec<Variant>),
    /// A dynamically-sized homogeneous sequence of the element type.
    Sequence(u32),
    /// A fixed-length homogeneous sequence: element type and length.
    Array(u32, u32),
    /// An ordered heterogeneous grouping of the element types.
    Tuple(Vec<u32>),
    Primitive(Primitive),
}

/// One registry entry: a path, the generic-parameter identifiers in declared
/// order (each referencing the entry bound at that slot), and a shape.
#[derive(Debug, PartialEq, Eq)]
pub struct TypeEntry {
    pub path: TypePath,
    pub type_params: Vec<u32>,
    pub shape: TypeShape,
}

/// An identifier paired with its type definition.
#[derive(Debug, PartialEq, Eq)]
pub struct RegistryEntry {
    pub id: u32,
    pub ty: TypeEntry,
}

/// The identifier-indexed catalog of all known type definitions, in
/// identifier order.
#[derive(Debug, PartialEq, Eq)]
pub struct TypeRegistry {
    pub entries: Vec<RegistryEntry>,
}

/// A named argument of a callable action.
#[derive(Debug, PartialEq, Eq)]
pub struct CallArg {
    pub name: String,
    pub ty: u32,
}

/// A callable action exposed by a remote module: a display name and an
/// ordered list of named arguments.
#[derive(Debug, PartialEq, Eq)]
pub struct CallMetadata {
    pub name: String,
    pub arguments: Vec<CallArg>,
}

/// An event emitted by a remote module: a name and an ordered list of
/// unnamed argument type identifiers.
#[derive(Debug, PartialEq, Eq)]
pub struct EventMetadata {
    pub name: String,
    pub arguments: Vec<u32>,
}

/// One remote module: a display name, its callable actions (if any) and its
/// events (if any).
#[derive(Debug, PartialEq, Eq)]
pub struct ModuleMetadata {
    pub name: String,
    pub calls: Option<Vec<CallMetadata>>,
    pub event: Option<Vec<EventMetadata>>,
}

/// The one understood schema version's content: the type registry and the
/// remote modules.
#[derive(Debug, PartialEq, Eq)]
pub struct Metadata {
    pub types: TypeRegistry,
    pub modules: Vec<ModuleMetadata>,
}

/// The versioned envelope a decoded descriptor arrives in. Only one concrete
/// schema version is understood; any other is a fatal input error carrying
/// the version number that was seen.
#[derive(Debug, PartialEq, Eq)]
pub enum VersionedMetadata {
    V13(Metadata),
    Unsupported(u32),
}

} // verus!
