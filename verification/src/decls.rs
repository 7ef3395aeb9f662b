//! The output data model: an abstract declaration tree.
//!
//! Generation produces record and tagged-union declarations whose field
//! types are concrete [`TypeExpr`] expressions, grouped into namespaces. A
//! separate renderer (outside this crate) turns the tree into source text.
//!
//! Each executable type has a mathematical view (`...View`) over `Seq` and
//! `nat`, computed by the `*_view` spec functions; contracts are stated over
//! those views.

use vstd::prelude::*;

use crate::metadata::GenError;

verus! {

broadcast use {vstd::std_specs::vec::group_vec_axioms, vstd::seq::group_seq_axioms};

/// A primitive type of the target language. The two 256-bit registry kinds
/// have no counterpart here: resolution rejects them instead of truncating.
#[derive(Debug, Clone, Copy, PartialEq, Eq, Structural)]
pub enum ResolvedPrimitive {
    Bool,
    Char,
    Str,
    U8,
    U16,
    U32,
    U64,
    U128,
    I8,
    I16,
    I32,
    I64,
    I128,
}

/// A concrete output type expression, produced by resolving a registry
/// identifier under an active generic scope.
#[derive(Debug, PartialEq, Eq)]
pub enum TypeExpr {
    /// The enclosing declaration's generic placeholder at this position.
    Param(usize),
    /// A reference to a declared type by name, with resolved generic
    /// arguments (empty if the target takes none).
    Path(String, Vec<TypeExpr>),
    /// A dynamically-sized homogeneous sequence of the element type.
    Sequence(Box<TypeExpr>),
    /// A fixed-length homogeneous sequence: element type and length.
    Array(Box<TypeExpr>, usize),
    /// An ordered heterogeneous grouping of the element types.
    Tuple(Vec<TypeExpr>),
    Primitive(ResolvedPrimitive),
}

/// Mathematical view of [`TypeExpr`].
pub enum TypeExprView {
    Param(nat),
    Path(Seq<char>, Seq<TypeExprView>),
    Sequence(Box<TypeExprView>),
    Array(Box<TypeExprView>, nat),
    Tuple(Seq<TypeExprView>),
    Primitive(ResolvedPrimitive),
}

pub open spec fn expr_view(e: TypeExpr) -> TypeExprView
    decreases e,
{
    match e {
        TypeExpr::Param(p) => TypeExprView::Param(p as nat),
        TypeExpr::Path(name, args) => TypeExprView::Path(name@, exprs_view(args@)),
        TypeExpr::Sequence(elem) => TypeExprView::Sequence(Box::new(expr_view(*elem))),
        TypeExpr::Array(elem, len) => TypeExprView::Array(Box::new(expr_view(*elem)), len as nat),
        TypeExpr::Tuple(elems) => TypeExprView::Tuple(exprs_view(elems@)),
        TypeExpr::Primitive(p) => TypeExprView::Primitive(p),
    }
}

pub open spec fn exprs_view(s: Seq<TypeExpr>) -> Seq<TypeExprView>
    decreases s,
{
    Seq::new(
        s.len(),
        |i: int|
            if 0 <= i < s.len() {
                expr_view(s[i])
            } else {
                arbitrary()
            },
    )
}

/// The fields of one record or of one tagged-union alternative: uniformly
/// all named or all unnamed.
#[derive(Debug, PartialEq, Eq)]
pub enum DeclFields {
    Named(Vec<(String, TypeExpr)>),
    Unnamed(Vec<TypeExpr>),
}

/// Mathematical view of [`DeclFields`].
pub enum DeclFieldsView {
    Named(Seq<(Seq<char>, TypeExprView)>),
    Unnamed(Seq<TypeExprView>),
}

pub open spec fn named_field_view(f: (String, TypeExpr)) -> (Seq<char>, TypeExprView) {
    (f.0@, expr_view(f.1))
}

pub open spec fn named_fields_view(s: Seq<(String, TypeExpr)>) -> Seq<(Seq<char>, TypeExprView)> {
    Seq::new(s.len(), |i: int| named_field_view(s[i]))
}

pub open spec fn fields_view(f: DeclFields) -> DeclFieldsView {
    match f {
        DeclFields::Named(fs) => DeclFieldsView::Named(named_fields_view(fs@)),
        DeclFields::Unnamed(ts) => DeclFieldsView::Unnamed(exprs_view(ts@)),
    }
}

/// One alternative of an emitted tagged union; `fields` is `None` when the
/// alternative carries no payload.
#[derive(Debug, PartialEq, Eq)]
pub struct VariantDecl {
    pub name: String,
    pub fields: Option<DeclFields>,
}

/// Mathematical view of [`VariantDecl`].
pub struct VariantDeclView {
    pub name: Seq<char>,
    pub fields: Option<DeclFieldsView>,
}

pub open spec fn variant_decl_view(v: VariantDecl) -> VariantDeclView {
    VariantDeclView {
        name: v.name@,
        fields: match v.fields {
            Some(f) => Some(fields_view(f)),
            None => None,
        },
    }
}

/// One emitted type declaration: a record or a tagged union, generic over
/// `params` positional placeholders.
#[derive(Debug, PartialEq, Eq)]
pub enum TypeDecl {
    Record { name: String, params: usize, fields: DeclFields },
    TaggedUnion { name: String, params: usize, variants: Vec<VariantDecl> },
}

/// Mathematical view of [`TypeDecl`].
pub enum TypeDeclView {
    Record { name: Seq<char>, params: nat, fields: DeclFieldsView },
    TaggedUnion { name: Seq<char>, params: nat, variants: Seq<VariantDeclView> },
}

pub open spec fn variants_view(s: Seq<VariantDecl>) -> Seq<VariantDeclView> {
    Seq::new(s.len(), |i: int| variant_decl_view(s[i]))
}

pub open spec fn type_decl_view(d: TypeDecl) -> TypeDeclView {
    match d {
        TypeDecl::Record { name, params, fields } => TypeDeclView::Record {
            name: name@,
            params: params as nat,
            fields: fields_view(fields),
        },
        TypeDecl::TaggedUnion { name, params, variants } => TypeDeclView::TaggedUnion {
            name: name@,
            params: params as nat,
            variants: variants_view(variants@),
        },
    }
}

/// The namespace holding every emitted type declaration of one run, in
/// registry order.
#[derive(Debug, PartialEq, Eq)]
pub struct TypesModule {
    pub name: String,
    pub decls: Vec<TypeDecl>,
}

/// Mathematical view of [`TypesModule`].
pub struct TypesModuleView {
    pub name: Seq<char>,
    pub decls: Seq<TypeDeclView>,
}

pub open spec fn decls_view(ds: Seq<TypeDecl>) -> Seq<TypeDeclView> {
    Seq::new(ds.len(), |i: int| type_decl_view(ds[i]))
}

pub open spec fn types_module_view(m: TypesModule) -> TypesModuleView {
    TypesModuleView { name: m.name@, decls: decls_view(m.decls@) }
}

/// A callable-action declaration: a named-field record keyed by argument
/// name.
#[derive(Debug, PartialEq, Eq)]
pub struct CallDecl {
    pub name: String,
    pub args: Vec<(String, TypeExpr)>,
}

/// Mathematical view of [`CallDecl`].
pub struct CallDeclView {
    pub name: Seq<char>,
    pub args: Seq<(Seq<char>, TypeExprView)>,
}

pub open spec fn call_decl_view(c: CallDecl) -> CallDeclView {
    CallDeclView { name: c.name@, args: named_fields_view(c.args@) }
}

/// An event-payload declaration: a positional-field record.
#[derive(Debug, PartialEq, Eq)]
pub struct EventDecl {
    pub name: String,
    pub args: Vec<TypeExpr>,
}

/// Mathematical view of [`EventDecl`].
pub struct EventDeclView {
    pub name: Seq<char>,
    pub args: Seq<TypeExprView>,
}

pub open spec fn event_decl_view(e: EventDecl) -> EventDeclView {
    EventDeclView { name: e.name@, args: exprs_view(e.args@) }
}

/// One remote module's namespace: its callable-action declarations and its
/// event-payload declarations. An empty list means the corresponding
/// sub-namespace is omitted by the renderer.
#[derive(Debug, PartialEq, Eq)]
pub struct ModuleDecls {
    pub name: String,
    pub calls: Vec<CallDecl>,
    pub events: Vec<EventDecl>,
}

/// Mathematical view of [`ModuleDecls`].
pub struct ModuleDeclsView {
    pub name: Seq<char>,
    pub calls: Seq<CallDeclView>,
    pub events: Seq<EventDeclView>,
}

pub open spec fn calls_view(s: Seq<CallDecl>) -> Seq<CallDeclView> {
    Seq::new(s.len(), |i: int| call_decl_view(s[i]))
}

pub open spec fn events_view(s: Seq<EventDecl>) -> Seq<EventDeclView> {
    Seq::new(s.len(), |i: int| event_decl_view(s[i]))
}

pub open spec fn module_decls_view(m: ModuleDecls) -> ModuleDeclsView {
    ModuleDeclsView { name: m.name@, calls: calls_view(m.calls@), events: events_view(m.events@) }
}

/// The root namespace of one full generation run: the type-declarations
/// namespace plus one namespace per remote module, in descriptor order.
#[derive(Debug, PartialEq, Eq)]
pub struct RuntimeModule {
    pub name: String,
    pub types: TypesModule,
    pub modules: Vec<ModuleDecls>,
}

/// Mathematical view of [`RuntimeModule`].
pub struct RuntimeModuleView {
    pub name: Seq<char>,
    pub types: TypesModuleView,
    pub modules: Seq<ModuleDeclsView>,
}

pub open spec fn modules_view(s: Seq<ModuleDecls>) -> Seq<ModuleDeclsView> {
    Seq::new(s.len(), |i: int| module_decls_view(s[i]))
}

pub open spec fn runtime_module_view(m: RuntimeModule) -> RuntimeModuleView {
    RuntimeModuleView {
        name: m.name@,
        types: types_module_view(m.types),
        modules: modules_view(m.modules@),
    }
}

/// Lifts a view function over the `Ok` side of a generation result.
pub open spec fn expr_res_view(r: Result<TypeExpr, GenError>) -> Result<TypeExprView, GenError> {
    match r {
        Ok(e) => Ok(expr_view(e)),
        Err(e) => Err(e),
    }
}

pub open spec fn fields_res_view(r: Result<DeclFields, GenError>) -> Result<DeclFieldsView, GenError> {
    match r {
        Ok(f) => Ok(fields_view(f)),
        Err(e) => Err(e),
    }
}

pub open spec fn types_module_res_view(r: Result<TypesModule, GenError>) -> Result<TypesModuleView, GenError> {
    match r {
        Ok(m) => Ok(types_module_view(m)),
        Err(e) => Err(e),
    }
}

pub open spec fn runtime_module_res_view(r: Result<RuntimeModule, GenError>) -> Result<RuntimeModuleView, GenError> {
    match r {
        Ok(m) => Ok(runtime_module_view(m)),
        Err(e) => Err(e),
    }
}

} // verus!
