//! The type-resolution and declaration-emission engine.
//!
//! [`TypeGenerator`] wraps a [`TypeRegistry`] by reference. `generate` walks
//! the registry in identifier order and emits one declaration per entry that
//! needs one; `resolve_type` turns an identifier plus an active generic
//! scope into a concrete [`TypeExpr`], recursing through nested structure.
//!
//! The spec functions here pin both passes down completely: every executable
//! function's result view equals the corresponding `spec_*` function of the
//! registry contents, which is what makes generation deterministic.

use vstd::prelude::*;

use crate::decls::{
    decls_view, exprs_view, expr_res_view, expr_view, fields_res_view, named_field_view,
    named_fields_view, type_decl_view, types_module_res_view, variant_decl_view, variants_view,
    DeclFields, DeclFieldsView, ResolvedPrimitive, TypeDecl, TypeDeclView, TypeExpr, TypeExprView,
    TypesModule, TypesModuleView, VariantDecl, VariantDeclView,
};
use crate::fold::{lemma_map_result_prefix_err, map_result, map_result_prefix};
use crate::metadata::{
    Field, GenError, Primitive, RegistryEntry, TypeEntry, TypeRegistry, TypeShape, Variant,
};

verus! {

broadcast use {
    vstd::seq::group_seq_axioms,
    vstd::set::group_set_axioms,
    vstd::std_specs::vec::group_vec_axioms,
};

/// One binding of the active generic scope: fields whose type reference
/// equals `concrete_type_id` render as the positional placeholder
/// `position` instead of being expanded.
#[derive(Debug, Clone, Copy, PartialEq, Eq, Structural)]
pub struct TypeParameter {
    pub concrete_type_id: u32,
    pub position: usize,
}

/// The placeholder bound to `id` in `scope`, searching in order.
pub open spec fn spec_scope_find_from(scope: Seq<TypeParameter>, id: u32, i: int) -> Option<usize>
    decreases scope.len() - i,
{
    if !(0 <= i < scope.len()) {
        None
    } else if scope[i].concrete_type_id == id {
        Some(scope[i].position)
    } else {
        spec_scope_find_from(scope, id, i + 1)
    }
}

pub open spec fn spec_scope_find(scope: Seq<TypeParameter>, id: u32) -> Option<usize> {
    spec_scope_find_from(scope, id, 0)
}

/// The registry entry with identifier `id`, searching in order.
pub open spec fn spec_lookup_from(reg: Seq<RegistryEntry>, id: u32, i: int) -> Option<TypeEntry>
    decreases reg.len() - i,
{
    if !(0 <= i < reg.len()) {
        None
    } else if reg[i].id == id {
        Some(reg[i].ty)
    } else {
        spec_lookup_from(reg, id, i + 1)
    }
}

pub open spec fn spec_lookup(reg: Seq<RegistryEntry>, id: u32) -> Option<TypeEntry> {
    spec_lookup_from(reg, id, 0)
}

/// The set of identifiers present in the registry.
pub open spec fn reg_ids(reg: Seq<RegistryEntry>) -> Set<u32> {
    reg.map_values(|e: RegistryEntry| e.id).to_set()
}

/// How many registry identifiers resolution has not yet stepped through:
/// the termination measure of `spec_resolve`.
pub open spec fn unvisited(reg: Seq<RegistryEntry>, visited: Set<u32>) -> nat {
    reg_ids(reg).difference(visited).len()
}

pub proof fn lemma_lookup_in_ids(reg: Seq<RegistryEntry>, id: u32, i: int)
    requires
        0 <= i <= reg.len(),
        spec_lookup_from(reg, id, i) is Some,
    ensures
        reg_ids(reg).contains(id),
    decreases reg.len() - i,
{
    let ids = reg.map_values(|e: RegistryEntry| e.id);
    if i < reg.len() {
        if reg[i].id == id {
            assert(ids[i] == id);
            assert(ids.contains(id));
        } else {
            lemma_lookup_in_ids(reg, id, i + 1);
        }
    }
}

/// Stepping through a registry identifier not yet visited strictly shrinks
/// the unvisited count.
pub proof fn lemma_visit_decreases(reg: Seq<RegistryEntry>, visited: Set<u32>, id: u32)
    requires
        spec_lookup(reg, id) is Some,
        !visited.contains(id),
    ensures
        unvisited(reg, visited.insert(id)) < unvisited(reg, visited),
{
    lemma_lookup_in_ids(reg, id, 0);
    let ids = reg_ids(reg);
    vstd::seq_lib::seq_to_set_is_finite(reg.map_values(|e: RegistryEntry| e.id));
    assert(ids.difference(visited.insert(id)) =~= ids.difference(visited).remove(id));
    assert(ids.difference(visited).contains(id));
    vstd::set::axiom_set_remove_len(ids.difference(visited), id);
}

/// The fixed lookup table from registry primitive kinds to target
/// primitives. The two 256-bit kinds have no representable target type.
pub open spec fn spec_primitive(p: Primitive) -> Result<ResolvedPrimitive, GenError> {
    match p {
        Primitive::Bool => Ok(ResolvedPrimitive::Bool),
        Primitive::Char => Ok(ResolvedPrimitive::Char),
        Primitive::Str => Ok(ResolvedPrimitive::Str),
        Primitive::U8 => Ok(ResolvedPrimitive::U8),
        Primitive::U16 => Ok(ResolvedPrimitive::U16),
        Primitive::U32 => Ok(ResolvedPrimitive::U32),
        Primitive::U64 => Ok(ResolvedPrimitive::U64),
        Primitive::U128 => Ok(ResolvedPrimitive::U128),
        Primitive::U256 => Err(GenError::UnrepresentablePrimitive),
        Primitive::I8 => Ok(ResolvedPrimitive::I8),
        Primitive::I16 => Ok(ResolvedPrimitive::I16),
        Primitive::I32 => Ok(ResolvedPrimitive::I32),
        Primitive::I64 => Ok(ResolvedPrimitive::I64),
        Primitive::I128 => Ok(ResolvedPrimitive::I128),
        Primitive::I256 => Err(GenError::UnrepresentablePrimitive),
    }
}

/// Resolves `id` under `scope`. The scope is consulted first; otherwise the
/// registry entry is found (else the reference dangles), its own generic
/// parameters are resolved under the same caller scope, and its shape
/// dispatches. `visited` holds the identifiers already stepped through on
/// this resolution path; meeting one again is a cyclic definition.
pub open spec fn spec_resolve(
    reg: Seq<RegistryEntry>,
    id: u32,
    scope: Seq<TypeParameter>,
    visited: Set<u32>,
) -> Result<TypeExprView, GenError>
    decreases unvisited(reg, visited), 0int,
{
    match spec_scope_find(scope, id) {
        Some(pos) => Ok(TypeExprView::Param(pos as nat)),
        None => match spec_lookup(reg, id) {
            None => Err(GenError::DanglingTypeReference(id)),
            Some(entry) => if visited.contains(id) {
                Err(GenError::CyclicTypeDefinition(id))
            } else {
                proof {
                    lemma_visit_decreases(reg, visited, id);
                }
                let v2 = visited.insert(id);
                match spec_resolve_list(reg, entry.type_params@, scope, v2) {
                    Err(e) => Err(e),
                    Ok(args) => match entry.shape {
                        TypeShape::Composite(_) | TypeShape::Variant(_) => match entry.path.ident {
                            Some(name) => Ok(TypeExprView::Path(name@, args)),
                            None => Err(GenError::MissingDeclaredName(id)),
                        },
                        TypeShape::Sequence(elem) => match spec_resolve(reg, elem, scope, v2) {
                            Err(e) => Err(e),
                            Ok(t) => Ok(TypeExprView::Sequence(Box::new(t))),
                        },
                        TypeShape::Array(elem, len) => match spec_resolve(reg, elem, scope, v2) {
                            Err(e) => Err(e),
                            Ok(t) => Ok(TypeExprView::Array(Box::new(t), len as nat)),
                        },
                        TypeShape::Tuple(elems) => match spec_resolve_list(reg, elems@, scope, v2) {
                            Err(e) => Err(e),
                            Ok(ts) => Ok(TypeExprView::Tuple(ts)),
                        },
                        TypeShape::Primitive(p) => match spec_primitive(p) {
                            Err(e) => Err(e),
                            Ok(rp) => Ok(TypeExprView::Primitive(rp)),
                        },
                    },
                }
            },
        },
    }
}

/// Resolves each identifier of `ids` in order under the same scope and
/// path, or returns the first error.
pub open spec fn spec_resolve_list(
    reg: Seq<RegistryEntry>,
    ids: Seq<u32>,
    scope: Seq<TypeParameter>,
    visited: Set<u32>,
) -> Result<Seq<TypeExprView>, GenError>
    decreases unvisited(reg, visited), ids.len() + 1,
{
    if ids.len() == 0 {
        Ok(Seq::empty())
    } else {
        match spec_resolve_list(reg, ids.drop_last(), scope, visited) {
            Err(e) => Err(e),
            Ok(rs) => match spec_resolve(reg, ids.last(), scope, visited) {
                Err(e) => Err(e),
                Ok(r) => Ok(rs.push(r)),
            },
        }
    }
}

/// An error while resolving a prefix of `ids` settles the whole list.
pub proof fn lemma_resolve_list_prefix_err(
    reg: Seq<RegistryEntry>,
    ids: Seq<u32>,
    scope: Seq<TypeParameter>,
    visited: Set<u32>,
    n: int,
)
    requires
        0 <= n <= ids.len(),
        spec_resolve_list(reg, ids.take(n), scope, visited) is Err,
    ensures
        spec_resolve_list(reg, ids, scope, visited) == spec_resolve_list(
            reg,
            ids.take(n),
            scope,
            visited,
        ),
    decreases ids.len() - n,
{
    if n < ids.len() {
        assert(ids.take(n + 1).drop_last() =~= ids.take(n));
        assert(spec_resolve_list(reg, ids.take(n + 1), scope, visited) == spec_resolve_list(
            reg,
            ids.take(n),
            scope,
            visited,
        ));
        lemma_resolve_list_prefix_err(reg, ids, scope, visited, n + 1);
    } else {
        assert(ids.take(n) =~= ids);
    }
}

/// The position bound to `id` in `scope`, searching in order.
fn scope_find(scope: &Vec<TypeParameter>, id: u32) -> (r: Option<usize>)
    ensures
        r == spec_scope_find(scope@, id),
{
    let mut i: usize = 0;
    while i < scope.len()
        invariant
            0 <= i <= scope@.len(),
            spec_scope_find(scope@, id) == spec_scope_find_from(scope@, id, i as int),
        decreases scope@.len() - i,
    {
        if scope[i].concrete_type_id == id {
            return Some(scope[i].position);
        }
        i += 1;
    }
    None
}

/// The registry entry with identifier `id`, searching in order.
fn lookup_entry(reg: &Vec<RegistryEntry>, id: u32) -> (r: Option<&TypeEntry>)
    ensures
        (match r {
            Some(t) => spec_lookup(reg@, id) == Some(*t),
            None => spec_lookup(reg@, id) is None,
        }),
{
    let mut i: usize = 0;
    while i < reg.len()
        invariant
            0 <= i <= reg@.len(),
            spec_lookup(reg@, id) == spec_lookup_from(reg@, id, i as int),
        decreases reg@.len() - i,
    {
        if reg[i].id == id {
            return Some(&reg[i].ty);
        }
        i += 1;
    }
    None
}

/// Whether `id` is among the identifiers already visited.
fn contains_id(v: &Vec<u32>, id: u32) -> (r: bool)
    ensures
        r == v@.contains(id),
{
    let mut i: usize = 0;
    while i < v.len()
        invariant
            0 <= i <= v@.len(),
            forall|k: int| 0 <= k < i ==> v@[k] != id,
        decreases v@.len() - i,
    {
        if v[i] == id {
            return true;
        }
        i += 1;
    }
    false
}

/// A copy of `v` with `id` appended: the visited path one step deeper.
fn push_id(v: &Vec<u32>, id: u32) -> (r: Vec<u32>)
    ensures
        r@ == v@.push(id),
{
    let mut r: Vec<u32> = Vec::new();
    let mut i: usize = 0;
    while i < v.len()
        invariant
            0 <= i <= v@.len(),
            r@ == v@.take(i as int),
        decreases v@.len() - i,
    {
        proof {
            assert(v@.take(i as int + 1) =~= v@.take(i as int).push(v@[i as int]));
        }
        r.push(v[i]);
        i += 1;
    }
    proof {
        assert(v@.take(v@.len() as int) =~= v@);
    }
    r.push(id);
    r
}

/// The fixed lookup table from registry primitive kinds to target
/// primitives, rejecting the two unrepresentable widths.
fn resolve_primitive(p: Primitive) -> (r: Result<ResolvedPrimitive, GenError>)
    ensures
        r == spec_primitive(p),
{
    match p {
        Primitive::Bool => Ok(ResolvedPrimitive::Bool),
        Primitive::Char => Ok(ResolvedPrimitive::Char),
        Primitive::Str => Ok(ResolvedPrimitive::Str),
        Primitive::U8 => Ok(ResolvedPrimitive::U8),
        Primitive::U16 => Ok(ResolvedPrimitive::U16),
        Primitive::U32 => Ok(ResolvedPrimitive::U32),
        Primitive::U64 => Ok(ResolvedPrimitive::U64),
        Primitive::U128 => Ok(ResolvedPrimitive::U128),
        Primitive::U256 => Err(GenError::UnrepresentablePrimitive),
        Primitive::I8 => Ok(ResolvedPrimitive::I8),
        Primitive::I16 => Ok(ResolvedPrimitive::I16),
        Primitive::I32 => Ok(ResolvedPrimitive::I32),
        Primitive::I64 => Ok(ResolvedPrimitive::I64),
        Primitive::I128 => Ok(ResolvedPrimitive::I128),
        Primitive::I256 => Err(GenError::UnrepresentablePrimitive),
    }
}

/// The name of a field, where it has one.
pub open spec fn spec_field_name(f: Field) -> Seq<char> {
    match f.name {
        Some(n) => n@,
        None => Seq::empty(),
    }
}

/// What resolving one named field yields: the field's name paired with its
/// resolved type, or the first error.
pub open spec fn field_named_f(reg: Seq<RegistryEntry>, scope: Seq<TypeParameter>) -> spec_fn(
    Field,
) -> Result<(Seq<char>, TypeExprView), GenError> {
    |f: Field|
        match spec_resolve(reg, f.ty, scope, Set::empty()) {
            Err(e) => Err(e),
            Ok(t) => Ok((spec_field_name(f), t)),
        }
}

/// What resolving one unnamed field yields.
pub open spec fn field_unnamed_f(reg: Seq<RegistryEntry>, scope: Seq<TypeParameter>) -> spec_fn(
    Field,
) -> Result<TypeExprView, GenError> {
    |f: Field| spec_resolve(reg, f.ty, scope, Set::empty())
}

/// The field-emission algorithm: all fields named gives a named-field
/// shape, all unnamed gives a positional shape, and a mix is a malformed
/// input; each field's type reference resolves under the enclosing entry's
/// scope on a fresh path.
pub open spec fn spec_fields(
    reg: Seq<RegistryEntry>,
    fields: Seq<Field>,
    scope: Seq<TypeParameter>,
) -> Result<DeclFieldsView, GenError> {
    if forall|i: int| 0 <= i < fields.len() ==> (#[trigger] fields[i].name) is Some {
        match map_result(fields, field_named_f(reg, scope)) {
            Err(e) => Err(e),
            Ok(fs) => Ok(DeclFieldsView::Named(fs)),
        }
    } else if forall|i: int| 0 <= i < fields.len() ==> (#[trigger] fields[i].name) is None {
        match map_result(fields, field_unnamed_f(reg, scope)) {
            Err(e) => Err(e),
            Ok(ts) => Ok(DeclFieldsView::Unnamed(ts)),
        }
    } else {
        Err(GenError::InconsistentFieldNaming)
    }
}

/// One emitted tagged-union alternative: an empty field list means no
/// payload; otherwise the field-emission algorithm applies.
pub open spec fn spec_variant(
    reg: Seq<RegistryEntry>,
    v: Variant,
    scope: Seq<TypeParameter>,
) -> Result<VariantDeclView, GenError> {
    if v.fields@.len() == 0 {
        Ok(VariantDeclView { name: v.name@, fields: None })
    } else {
        match spec_fields(reg, v.fields@, scope) {
            Err(e) => Err(e),
            Ok(fs) => Ok(VariantDeclView { name: v.name@, fields: Some(fs) }),
        }
    }
}

pub open spec fn variant_f(reg: Seq<RegistryEntry>, scope: Seq<TypeParameter>) -> spec_fn(
    Variant,
) -> Result<VariantDeclView, GenError> {
    |v: Variant| spec_variant(reg, v, scope)
}

/// The placeholder scope of an entry: its generic-parameter identifiers in
/// declared order, each bound to its position.
pub open spec fn spec_param_scope(params: Seq<u32>) -> Seq<TypeParameter> {
    Seq::new(
        params.len(),
        |i: int| TypeParameter { concrete_type_id: params[i], position: i as usize },
    )
}

/// The declaration one registry entry contributes: none for host-builtin
/// (empty-namespace) entries and for the structural shapes, a record for a
/// composite and a tagged union for a variant definition.
pub open spec fn spec_decl_of(reg: Seq<RegistryEntry>, re: RegistryEntry) -> Result<
    Option<TypeDeclView>,
    GenError,
> {
    if re.ty.path.namespace@.len() == 0 {
        Ok(None)
    } else {
        let scope = spec_param_scope(re.ty.type_params@);
        match re.ty.shape {
            TypeShape::Composite(fields) => match re.ty.path.ident {
                None => Err(GenError::MissingDeclaredName(re.id)),
                Some(n) => match spec_fields(reg, fields@, scope) {
                    Err(e) => Err(e),
                    Ok(fs) => Ok(
                        Some(TypeDeclView::Record { name: n@, params: scope.len(), fields: fs }),
                    ),
                },
            },
            TypeShape::Variant(vars) => match re.ty.path.ident {
                None => Err(GenError::MissingDeclaredName(re.id)),
                Some(n) => match map_result(vars@, variant_f(reg, scope)) {
                    Err(e) => Err(e),
                    Ok(vs) => Ok(
                        Some(
                            TypeDeclView::TaggedUnion {
                                name: n@,
                                params: scope.len(),
                                variants: vs,
                            },
                        ),
                    ),
                },
            },
            _ => Ok(None),
        }
    }
}

/// The declarations contributed by the first `n` registry entries, in
/// registry order, or the first error.
pub open spec fn spec_decls_prefix(reg: Seq<RegistryEntry>, n: int) -> Result<
    Seq<TypeDeclView>,
    GenError,
>
    decreases n,
{
    if n <= 0 {
        Ok(Seq::empty())
    } else {
        match spec_decls_prefix(reg, n - 1) {
            Err(e) => Err(e),
            Ok(ds) => match spec_decl_of(reg, reg[n - 1]) {
                Err(e) => Err(e),
                Ok(None) => Ok(ds),
                Ok(Some(d)) => Ok(ds.push(d)),
            },
        }
    }
}

/// An error at one entry settles the whole declaration pass.
pub proof fn lemma_decls_prefix_err(reg: Seq<RegistryEntry>, n: int)
    requires
        0 <= n <= reg.len(),
        spec_decls_prefix(reg, n) is Err,
    ensures
        spec_decls_prefix(reg, reg.len() as int) == spec_decls_prefix(reg, n),
    decreases reg.len() - n,
{
    if n < reg.len() {
        assert(spec_decls_prefix(reg, n + 1) == spec_decls_prefix(reg, n));
        lemma_decls_prefix_err(reg, n + 1);
    }
}

/// The full declaration pass: one declaration per entry that needs one,
/// wrapped in a namespace with the caller-supplied name.
pub open spec fn spec_generate(reg: Seq<RegistryEntry>, root: Seq<char>) -> Result<
    TypesModuleView,
    GenError,
> {
    match spec_decls_prefix(reg, reg.len() as int) {
        Err(e) => Err(e),
        Ok(ds) => Ok(TypesModuleView { name: root, decls: ds }),
    }
}

/// Whether a registry entry produces a standalone declaration: a non-empty
/// namespace and a composite or tagged-union shape.
pub open spec fn spec_declarable(re: RegistryEntry) -> bool {
    re.ty.path.namespace@.len() > 0 && (re.ty.shape is Composite || re.ty.shape is Variant)
}

/// How many of the first `n` registry entries produce a declaration.
pub open spec fn count_declarable(reg: Seq<RegistryEntry>, n: int) -> int
    decreases n,
{
    if n <= 0 {
        0
    } else {
        count_declarable(reg, n - 1) + if spec_declarable(reg[n - 1]) {
            1int
        } else {
            0
        }
    }
}

proof fn lemma_decls_prefix_count(reg: Seq<RegistryEntry>, n: int, ds: Seq<TypeDeclView>)
    requires
        0 <= n <= reg.len(),
        spec_decls_prefix(reg, n) == Ok::<Seq<TypeDeclView>, GenError>(ds),
    ensures
        ds.len() == count_declarable(reg, n),
        forall|k: int|
            0 <= k < n && spec_declarable(reg[k]) ==> spec_decl_of(reg, reg[k]) == Ok::<
                Option<TypeDeclView>,
                GenError,
            >(Some(#[trigger] ds[count_declarable(reg, k)])),
    decreases n,
{
    if n > 0 {
        let prev = spec_decls_prefix(reg, n - 1)->Ok_0;
        lemma_decls_prefix_count(reg, n - 1, prev);
        match spec_decl_of(reg, reg[n - 1]) {
            Ok(None) => {
                assert(ds == prev);
            },
            Ok(Some(d)) => {
                assert(ds == prev.push(d));
            },
            Err(_) => {
                assert(false);
            },
        }
        assert forall|k: int| 0 <= k < n && spec_declarable(reg[k]) implies spec_decl_of(
            reg,
            reg[k],
        ) == Ok::<Option<TypeDeclView>, GenError>(
            Some(#[trigger] ds[count_declarable(reg, k)]),
        ) by {
            if k < n - 1 {
                lemma_count_monotone(reg, 0, k);
                lemma_count_monotone(reg, k + 1, n - 1);
                assert(count_declarable(reg, k + 1) == count_declarable(reg, k) + 1);
                assert(count_declarable(reg, k) < prev.len());
                match spec_decl_of(reg, reg[n - 1]) {
                    Ok(Some(d)) => {
                        assert(prev.push(d)[count_declarable(reg, k)] == prev[count_declarable(
                            reg,
                            k,
                        )]);
                    },
                    _ => {},
                }
                assert(ds[count_declarable(reg, k)] == prev[count_declarable(reg, k)]);
            } else {
                lemma_count_monotone(reg, 0, k);
                assert(count_declarable(reg, k) == prev.len());
            }
        }
    }
}

proof fn lemma_count_monotone(reg: Seq<RegistryEntry>, a: int, b: int)
    requires
        a <= b,
    ensures
        count_declarable(reg, a) <= count_declarable(reg, b),
    decreases b - a,
{
    if a < b {
        lemma_count_monotone(reg, a, b - 1);
    }
}

/// Law: a successful declaration pass emits exactly one declaration for
/// each registry entry with a non-empty namespace and a composite or
/// tagged-union shape, and none for any other entry — in particular none
/// for a host-builtin (empty-namespace) entry. The declaration of the k-th
/// declarable entry stands at position `count_declarable(reg, k)`, so the
/// emitted list follows registry order.
pub proof fn lemma_one_decl_per_entry(
    reg: Seq<RegistryEntry>,
    root: Seq<char>,
    tm: TypesModuleView,
)
    requires
        spec_generate(reg, root) == Ok::<TypesModuleView, GenError>(tm),
    ensures
        tm.decls.len() == count_declarable(reg, reg.len() as int),
        forall|k: int|
            0 <= k < reg.len() && spec_declarable(reg[k]) ==> spec_decl_of(reg, reg[k]) == Ok::<
                Option<TypeDeclView>,
                GenError,
            >(Some(#[trigger] tm.decls[count_declarable(reg, k)])),
{
    lemma_decls_prefix_count(reg, reg.len() as int, tm.decls);
}

/// Law: the declaration pass is a function of the registry contents and the
/// root name alone, so generating twice from the same immutable registry
/// yields identical declaration trees.
pub proof fn lemma_generate_deterministic(
    reg: Seq<RegistryEntry>,
    root: Seq<char>,
    r1: Result<TypesModuleView, GenError>,
    r2: Result<TypesModuleView, GenError>,
)
    requires
        r1 == spec_generate(reg, root),
        r2 == spec_generate(reg, root),
    ensures
        r1 == r2,
{
}

/// The registry half of a generator pair: wraps an immutable registry by
/// reference for the whole generation run.
pub struct TypeGenerator<'a> {
    pub types: &'a TypeRegistry,
}

impl<'a> TypeGenerator<'a> {
    /// Construct a new [`TypeGenerator`] over the given type registry.
    /// Validation is deferred to generation.
    pub fn new(types: &'a TypeRegistry) -> (r: TypeGenerator<'a>)
        ensures
            r.types == types,
    {
        TypeGenerator { types }
    }

    /// Resolves `id` under the caller's active generic scope into a concrete
    /// type expression, starting a fresh resolution path.
    pub fn resolve_type(&self, id: u32, parent_type_params: &Vec<TypeParameter>) -> (r: Result<
        TypeExpr,
        GenError,
    >)
        ensures
            expr_res_view(r) == spec_resolve(
                self.types.entries@,
                id,
                parent_type_params@,
                Set::empty(),
            ),
    {
        let visited: Vec<u32> = Vec::new();
        proof {
            assert(visited@.to_set() =~= Set::<u32>::empty());
        }
        self.resolve_in(id, parent_type_params, &visited)
    }

    /// One step of resolution along the path recorded in `visited`.
    #[verifier::loop_isolation(false)]
    fn resolve_in(&self, id: u32, scope: &Vec<TypeParameter>, visited: &Vec<u32>) -> (r: Result<
        TypeExpr,
        GenError,
    >)
        ensures
            expr_res_view(r) == spec_resolve(self.types.entries@, id, scope@, visited@.to_set()),
        decreases unvisited(self.types.entries@, visited@.to_set()),
    {
        let ghost regs = self.types.entries@;
        let ghost vset = visited@.to_set();
        match scope_find(scope, id) {
            Some(pos) => {
                return Ok(TypeExpr::Param(pos));
            },
            None => {},
        }
        let entry = match lookup_entry(&self.types.entries, id) {
            Some(e) => e,
            None => {
                return Err(GenError::DanglingTypeReference(id));
            },
        };
        if contains_id(visited, id) {
            return Err(GenError::CyclicTypeDefinition(id));
        }
        let visited2 = push_id(visited, id);
        proof {
            visited@.lemma_push_to_set_commute(id);
            assert(visited2@.to_set() == vset.insert(id));
            lemma_visit_decreases(regs, vset, id);
        }
        let ghost v2 = vset.insert(id);
        proof {
            assert(exprs_view(Seq::<TypeExpr>::empty()) =~= Seq::<TypeExprView>::empty());
        }
        let mut args: Vec<TypeExpr> = Vec::new();
        let params = &entry.type_params;
        proof {
            assert(params@.take(0) =~= Seq::<u32>::empty());
        }
        let mut j: usize = 0;
        while j < params.len()
            invariant
                0 <= j <= params@.len(),
                spec_resolve_list(regs, params@.take(j as int), scope@, v2) == Ok::<
                    Seq<TypeExprView>,
                    GenError,
                >(exprs_view(args@)),
            decreases params@.len() - j,
        {
            proof {
                assert(params@.take(j as int + 1).drop_last() =~= params@.take(j as int));
                assert(params@.take(j as int + 1).last() == params@[j as int]);
            }
            match self.resolve_in(params[j], scope, &visited2) {
                Ok(t) => {
                    proof {
                        assert(exprs_view(args@.push(t)) =~= exprs_view(args@).push(expr_view(t)));
                    }
                    args.push(t);
                },
                Err(e) => {
                    proof {
                        lemma_resolve_list_prefix_err(regs, params@, scope@, v2, j as int + 1);
                    }
                    return Err(e);
                },
            }
            j += 1;
        }
        proof {
            assert(params@.take(params@.len() as int) =~= params@);
        }
        match &entry.shape {
            TypeShape::Composite(_) => match &entry.path.ident {
                Some(name) => Ok(TypeExpr::Path(name.clone(), args)),
                None => Err(GenError::MissingDeclaredName(id)),
            },
            TypeShape::Variant(_) => match &entry.path.ident {
                Some(name) => Ok(TypeExpr::Path(name.clone(), args)),
                None => Err(GenError::MissingDeclaredName(id)),
            },
            TypeShape::Sequence(elem) => match self.resolve_in(*elem, scope, &visited2) {
                Ok(t) => Ok(TypeExpr::Sequence(Box::new(t))),
                Err(e) => Err(e),
            },
            TypeShape::Array(elem, len) => match self.resolve_in(*elem, scope, &visited2) {
                Ok(t) => Ok(TypeExpr::Array(Box::new(t), *len as usize)),
                Err(e) => Err(e),
            },
            TypeShape::Tuple(elems) => {
                let mut ts: Vec<TypeExpr> = Vec::new();
                proof {
                    assert(elems@.take(0) =~= Seq::<u32>::empty());
                }
                let mut k: usize = 0;
                while k < elems.len()
                    invariant
                        0 <= k <= elems@.len(),
                        spec_resolve_list(regs, elems@.take(k as int), scope@, v2) == Ok::<
                            Seq<TypeExprView>,
                            GenError,
                        >(exprs_view(ts@)),
                    decreases elems@.len() - k,
                {
                    proof {
                        assert(elems@.take(k as int + 1).drop_last() =~= elems@.take(k as int));
                        assert(elems@.take(k as int + 1).last() == elems@[k as int]);
                    }
                    match self.resolve_in(elems[k], scope, &visited2) {
                        Ok(t) => {
                            proof {
                                assert(exprs_view(ts@.push(t)) =~= exprs_view(ts@).push(
                                    expr_view(t),
                                ));
                            }
                            ts.push(t);
                        },
                        Err(e) => {
                            proof {
                                lemma_resolve_list_prefix_err(
                                    regs,
                                    elems@,
                                    scope@,
                                    v2,
                                    k as int + 1,
                                );
                            }
                            return Err(e);
                        },
                    }
                    k += 1;
                }
                proof {
                    assert(elems@.take(elems@.len() as int) =~= elems@);
                }
                Ok(TypeExpr::Tuple(ts))
            },
            TypeShape::Primitive(p) => match resolve_primitive(*p) {
                Ok(rp) => Ok(TypeExpr::Primitive(rp)),
                Err(e) => Err(e),
            },
        }
    }

    /// The field-emission algorithm on one field list, under the enclosing
    /// entry's placeholder scope.
    #[verifier::loop_isolation(false)]
    fn composite_fields(&self, fields: &Vec<Field>, type_params: &Vec<TypeParameter>) -> (r:
        Result<DeclFields, GenError>)
        ensures
            fields_res_view(r) == spec_fields(self.types.entries@, fields@, type_params@),
    {
        let ghost regs = self.types.entries@;
        let mut named = true;
        let mut unnamed = true;
        let mut i: usize = 0;
        while i < fields.len()
            invariant
                0 <= i <= fields@.len(),
                named == (forall|k: int| 0 <= k < i ==> (#[trigger] fields@[k].name) is Some),
                unnamed == (forall|k: int| 0 <= k < i ==> (#[trigger] fields@[k].name) is None),
            decreases fields@.len() - i,
        {
            if fields[i].name.is_some() {
                unnamed = false;
            } else {
                named = false;
            }
            i += 1;
        }
        if named {
            let mut out: Vec<(String, TypeExpr)> = Vec::new();
            proof {
                assert(named_fields_view(Seq::<(String, TypeExpr)>::empty()) =~= Seq::<
                    (Seq<char>, TypeExprView),
                >::empty());
            }
            let mut j: usize = 0;
            while j < fields.len()
                invariant
                    0 <= j <= fields@.len(),
                    map_result_prefix(fields@, field_named_f(regs, type_params@), j as int) == Ok::<
                        Seq<(Seq<char>, TypeExprView)>,
                        GenError,
                    >(named_fields_view(out@)),
                decreases fields@.len() - j,
            {
                let name = match &fields[j].name {
                    Some(n) => n.clone(),
                    None => unreached(),
                };
                match self.resolve_type(fields[j].ty, type_params) {
                    Ok(t) => {
                        proof {
                            assert(named_fields_view(out@.push((name, t))) =~= named_fields_view(
                                out@,
                            ).push(named_field_view((name, t))));
                        }
                        out.push((name, t));
                    },
                    Err(e) => {
                        proof {
                            lemma_map_result_prefix_err(
                                fields@,
                                field_named_f(regs, type_params@),
                                j as int + 1,
                            );
                        }
                        return Err(e);
                    },
                }
                j += 1;
            }
            Ok(DeclFields::Named(out))
        } else if unnamed {
            let mut out: Vec<TypeExpr> = Vec::new();
            proof {
                assert(exprs_view(Seq::<TypeExpr>::empty()) =~= Seq::<TypeExprView>::empty());
            }
            let mut j: usize = 0;
            while j < fields.len()
                invariant
                    0 <= j <= fields@.len(),
                    map_result_prefix(fields@, field_unnamed_f(regs, type_params@), j as int)
                        == Ok::<Seq<TypeExprView>, GenError>(exprs_view(out@)),
                decreases fields@.len() - j,
            {
                match self.resolve_type(fields[j].ty, type_params) {
                    Ok(t) => {
                        proof {
                            assert(exprs_view(out@.push(t)) =~= exprs_view(out@).push(
                                expr_view(t),
                            ));
                        }
                        out.push(t);
                    },
                    Err(e) => {
                        proof {
                            lemma_map_result_prefix_err(
                                fields@,
                                field_unnamed_f(regs, type_params@),
                                j as int + 1,
                            );
                        }
                        return Err(e);
                    },
                }
                j += 1;
            }
            Ok(DeclFields::Unnamed(out))
        } else {
            Err(GenError::InconsistentFieldNaming)
        }
    }

    /// The full declaration pass: walks the registry in identifier order and
    /// emits one declaration per composite or tagged-union entry with a
    /// non-empty namespace, all wrapped in a namespace named `root_mod`.
    #[verifier::loop_isolation(false)]
    pub fn generate(&self, root_mod: &str) -> (r: Result<TypesModule, GenError>)
        ensures
            types_module_res_view(r) == spec_generate(self.types.entries@, root_mod@),
    {
        let ghost regs = self.types.entries@;
        let mut decls: Vec<TypeDecl> = Vec::new();
        proof {
            assert(decls_view(Seq::<TypeDecl>::empty()) =~= Seq::<TypeDeclView>::empty());
        }
        let n = self.types.entries.len();
        let mut i: usize = 0;
        while i < n
            invariant
                0 <= i <= regs.len(),
                spec_decls_prefix(regs, i as int) == Ok::<Seq<TypeDeclView>, GenError>(
                    decls_view(decls@),
                ),
            decreases regs.len() - i,
        {
            let re = &self.types.entries[i];
            if re.ty.path.namespace.len() > 0 {
                let mut scope: Vec<TypeParameter> = Vec::new();
                let params = &re.ty.type_params;
                let mut j: usize = 0;
                while j < params.len()
                    invariant
                        0 <= j <= params@.len(),
                        scope@.len() == j,
                        forall|k: int|
                            0 <= k < j ==> scope@[k] == (TypeParameter {
                                concrete_type_id: params@[k],
                                position: k as usize,
                            }),
                    decreases params@.len() - j,
                {
                    scope.push(TypeParameter { concrete_type_id: params[j], position: j });
                    j += 1;
                }
                proof {
                    assert(scope@ =~= spec_param_scope(params@));
                }
                match &re.ty.shape {
                    TypeShape::Composite(fields) => {
                        let name = match &re.ty.path.ident {
                            Some(nm) => nm.clone(),
                            None => {
                                proof {
                                    lemma_decls_prefix_err(regs, i as int + 1);
                                }
                                return Err(GenError::MissingDeclaredName(re.id));
                            },
                        };
                        match self.composite_fields(fields, &scope) {
                            Ok(fs) => {
                                let d = TypeDecl::Record {
                                    name,
                                    params: scope.len(),
                                    fields: fs,
                                };
                                proof {
                                    assert(decls_view(decls@.push(d)) =~= decls_view(decls@).push(
                                        type_decl_view(d),
                                    ));
                                }
                                decls.push(d);
                            },
                            Err(e) => {
                                proof {
                                    lemma_decls_prefix_err(regs, i as int + 1);
                                }
                                return Err(e);
                            },
                        }
                    },
                    TypeShape::Variant(vars) => {
                        let name = match &re.ty.path.ident {
                            Some(nm) => nm.clone(),
                            None => {
                                proof {
                                    lemma_decls_prefix_err(regs, i as int + 1);
                                }
                                return Err(GenError::MissingDeclaredName(re.id));
                            },
                        };
                        let mut outs: Vec<VariantDecl> = Vec::new();
                        proof {
                            assert(variants_view(Seq::<VariantDecl>::empty()) =~= Seq::<
                                VariantDeclView,
                            >::empty());
                        }
                        let mut k: usize = 0;
                        while k < vars.len()
                            invariant
                                0 <= k <= vars@.len(),
                                map_result_prefix(
                                    vars@,
                                    variant_f(regs, spec_param_scope(params@)),
                                    k as int,
                                ) == Ok::<Seq<VariantDeclView>, GenError>(variants_view(outs@)),
                            decreases vars@.len() - k,
                        {
                            let v = &vars[k];
                            let vd = if v.fields.len() == 0 {
                                VariantDecl { name: v.name.clone(), fields: None }
                            } else {
                                match self.composite_fields(&v.fields, &scope) {
                                    Ok(fs) => VariantDecl {
                                        name: v.name.clone(),
                                        fields: Some(fs),
                                    },
                                    Err(e) => {
                                        proof {
                                            lemma_map_result_prefix_err(
                                                vars@,
                                                variant_f(regs, spec_param_scope(params@)),
                                                k as int + 1,
                                            );
                                            lemma_decls_prefix_err(regs, i as int + 1);
                                        }
                                        return Err(e);
                                    },
                                }
                            };
                            proof {
                                assert(variants_view(outs@.push(vd)) =~= variants_view(outs@).push(
                                    variant_decl_view(vd),
                                ));
                            }
                            outs.push(vd);
                            k += 1;
                        }
                        let d = TypeDecl::TaggedUnion {
                            name,
                            params: scope.len(),
                            variants: outs,
                        };
                        proof {
                            assert(decls_view(decls@.push(d)) =~= decls_view(decls@).push(
                                type_decl_view(d),
                            ));
                        }
                        decls.push(d);
                    },
                    TypeShape::Sequence(_) => {},
                    TypeShape::Array(_, _) => {},
                    TypeShape::Tuple(_) => {},
                    TypeShape::Primitive(_) => {},
                }
            }
            i += 1;
        }
        Ok(TypesModule { name: root_mod.to_owned(), decls })
    }
}

} // verus!
