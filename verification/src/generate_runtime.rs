//! Interface generation over a full metadata descriptor.
//!
//! [`RuntimeGenerator`] owns the one understood schema version's content and
//! emits, per remote module, a callable-action declaration per action and an
//! event-payload declaration per event, with every argument type resolved
//! through the type-resolution engine. Module namespace identifiers come
//! from the snake_case form of the module's display name, action declaration
//! names from the UpperCamelCase form of the action's display name, and
//! event declarations keep the event's name verbatim.

use vstd::prelude::*;

use crate::decls::{
    call_decl_view, calls_view, event_decl_view, events_view, module_decls_view, modules_view,
    named_field_view, named_fields_view, exprs_view, expr_view, runtime_module_res_view, CallDecl,
    CallDeclView, EventDecl, EventDeclView, ModuleDecls, ModuleDeclsView, RuntimeModule,
    RuntimeModuleView, TypeExpr, TypeExprView,
};
use crate::fold::{lemma_map_result_prefix_err, map_result, map_result_prefix};
use crate::generate_types::{spec_generate, spec_resolve, TypeGenerator, TypeParameter};
use crate::metadata::{
    CallArg, CallMetadata, EventMetadata, GenError, Metadata, ModuleMetadata, RegistryEntry,
    VersionedMetadata,
};
use crate::names::{camel_of, snake_of, to_camel, to_snake};

verus! {

/// What resolving one action argument yields: the argument's name paired
/// with its resolved type (actions reference only concrete or
/// registry-level-generic types, so no generic scope is active).
pub open spec fn call_arg_f(reg: Seq<RegistryEntry>) -> spec_fn(CallArg) -> Result<
    (Seq<char>, TypeExprView),
    GenError,
> {
    |a: CallArg|
        match spec_resolve(reg, a.ty, Seq::empty(), Set::empty()) {
            Err(e) => Err(e),
            Ok(t) => Ok((a.name@, t)),
        }
}

/// One callable-action declaration: a named-field record keyed by argument
/// name, named by the UpperCamelCase form of the action's display name.
pub open spec fn spec_call(reg: Seq<RegistryEntry>, c: CallMetadata) -> Result<
    CallDeclView,
    GenError,
> {
    match map_result(c.arguments@, call_arg_f(reg)) {
        Err(e) => Err(e),
        Ok(args) => Ok(CallDeclView { name: camel_of(c.name@), args }),
    }
}

pub open spec fn call_f(reg: Seq<RegistryEntry>) -> spec_fn(CallMetadata) -> Result<
    CallDeclView,
    GenError,
> {
    |c: CallMetadata| spec_call(reg, c)
}

pub open spec fn event_arg_f(reg: Seq<RegistryEntry>) -> spec_fn(u32) -> Result<
    TypeExprView,
    GenError,
> {
    |id: u32| spec_resolve(reg, id, Seq::empty(), Set::empty())
}

/// One event-payload declaration: a positional-field record named after the
/// event verbatim.
pub open spec fn spec_event(reg: Seq<RegistryEntry>, e: EventMetadata) -> Result<
    EventDeclView,
    GenError,
> {
    match map_result(e.arguments@, event_arg_f(reg)) {
        Err(er) => Err(er),
        Ok(args) => Ok(EventDeclView { name: e.name@, args }),
    }
}

pub open spec fn event_f(reg: Seq<RegistryEntry>) -> spec_fn(EventMetadata) -> Result<
    EventDeclView,
    GenError,
> {
    |e: EventMetadata| spec_event(reg, e)
}

/// A module's action list; an absent list emits nothing.
pub open spec fn spec_module_calls(m: ModuleMetadata) -> Seq<CallMetadata> {
    match m.calls {
        Some(cs) => cs@,
        None => Seq::empty(),
    }
}

/// A module's event list; an absent list emits nothing.
pub open spec fn spec_module_events(m: ModuleMetadata) -> Seq<EventMetadata> {
    match m.event {
        Some(es) => es@,
        None => Seq::empty(),
    }
}

/// One remote module's namespace: its action declarations, then its event
/// declarations, under the snake_case form of the module's display name.
pub open spec fn spec_module(reg: Seq<RegistryEntry>, m: ModuleMetadata) -> Result<
    ModuleDeclsView,
    GenError,
> {
    match map_result(spec_module_calls(m), call_f(reg)) {
        Err(e) => Err(e),
        Ok(cs) => match map_result(spec_module_events(m), event_f(reg)) {
            Err(e) => Err(e),
            Ok(es) => Ok(ModuleDeclsView { name: snake_of(m.name@), calls: cs, events: es }),
        },
    }
}

pub open spec fn module_f(reg: Seq<RegistryEntry>) -> spec_fn(ModuleMetadata) -> Result<
    ModuleDeclsView,
    GenError,
> {
    |m: ModuleMetadata| spec_module(reg, m)
}

/// The full generation run: the type declarations under a namespace named
/// `types`, then one namespace per remote module in descriptor order, all
/// wrapped in a root namespace with the caller-supplied name.
pub open spec fn spec_generate_runtime(md: Metadata, mod_name: Seq<char>) -> Result<
    RuntimeModuleView,
    GenError,
> {
    match spec_generate(md.types.entries@, "types"@) {
        Err(e) => Err(e),
        Ok(tm) => match map_result(md.modules@, module_f(md.types.entries@)) {
            Err(e) => Err(e),
            Ok(ms) => Ok(RuntimeModuleView { name: mod_name, types: tm, modules: ms }),
        },
    }
}

/// Law: a full generation run is a pure function of the immutable registry
/// and descriptor content plus the caller-supplied root name, so generating
/// twice from the same metadata yields identical declaration trees.
pub proof fn lemma_generate_runtime_deterministic(
    md: Metadata,
    mod_name: Seq<char>,
    r1: Result<RuntimeModuleView, GenError>,
    r2: Result<RuntimeModuleView, GenError>,
)
    requires
        r1 == spec_generate_runtime(md, mod_name),
        r2 == spec_generate_runtime(md, mod_name),
    ensures
        r1 == r2,
{
}

/// The interface half of a generator pair: owns the decoded metadata.
pub struct RuntimeGenerator {
    pub metadata: Metadata,
}

impl RuntimeGenerator {
    /// Accepts the one understood schema version; any other version of the
    /// envelope is a fatal input error carrying the version seen.
    pub fn new(metadata: VersionedMetadata) -> (r: Result<RuntimeGenerator, GenError>)
        ensures
            (match metadata {
                VersionedMetadata::V13(md) => r == Ok::<RuntimeGenerator, GenError>(
                    RuntimeGenerator { metadata: md },
                ),
                VersionedMetadata::Unsupported(v) => r == Err::<RuntimeGenerator, GenError>(
                    GenError::UnsupportedSchemaVersion(v),
                ),
            }),
    {
        match metadata {
            VersionedMetadata::V13(md) => Ok(RuntimeGenerator { metadata: md }),
            VersionedMetadata::Unsupported(v) => Err(GenError::UnsupportedSchemaVersion(v)),
        }
    }

    /// The full generation run over the owned descriptor: a pure function of
    /// the registry and descriptor content plus the caller-supplied root
    /// name.
    #[verifier::loop_isolation(false)]
    pub fn generate_runtime(&self, mod_name: &str) -> (r: Result<RuntimeModule, GenError>)
        ensures
            runtime_module_res_view(r) == spec_generate_runtime(self.metadata, mod_name@),
    {
        let ghost regs = self.metadata.types.entries@;
        let type_generator = TypeGenerator::new(&self.metadata.types);
        let types = match type_generator.generate("types") {
            Ok(tm) => tm,
            Err(e) => {
                return Err(e);
            },
        };
        let empty_scope: Vec<TypeParameter> = Vec::new();
        let mut modules: Vec<ModuleDecls> = Vec::new();
        proof {
            assert(modules_view(Seq::<ModuleDecls>::empty()) =~= Seq::<ModuleDeclsView>::empty());
        }
        let mut i: usize = 0;
        while i < self.metadata.modules.len()
            invariant
                0 <= i <= self.metadata.modules@.len(),
                map_result_prefix(self.metadata.modules@, module_f(regs), i as int) == Ok::<
                    Seq<ModuleDeclsView>,
                    GenError,
                >(modules_view(modules@)),
            decreases self.metadata.modules@.len() - i,
        {
            let module = &self.metadata.modules[i];
            let mod_ident = to_snake(&module.name);
            let mut calls: Vec<CallDecl> = Vec::new();
            proof {
                assert(calls_view(Seq::<CallDecl>::empty()) =~= Seq::<CallDeclView>::empty());
            }
            match &module.calls {
                Some(cs) => {
                    let mut j: usize = 0;
                    while j < cs.len()
                        invariant
                            0 <= j <= cs@.len(),
                            map_result_prefix(cs@, call_f(regs), j as int) == Ok::<
                                Seq<CallDeclView>,
                                GenError,
                            >(calls_view(calls@)),
                        decreases cs@.len() - j,
                    {
                        let c = &cs[j];
                        let cname = to_camel(&c.name);
                        let mut args: Vec<(String, TypeExpr)> = Vec::new();
                        proof {
                            assert(named_fields_view(Seq::<(String, TypeExpr)>::empty()) =~= Seq::<
                                (Seq<char>, TypeExprView),
                            >::empty());
                        }
                        let mut k: usize = 0;
                        while k < c.arguments.len()
                            invariant
                                0 <= k <= c.arguments@.len(),
                                map_result_prefix(c.arguments@, call_arg_f(regs), k as int) == Ok::<
                                    Seq<(Seq<char>, TypeExprView)>,
                                    GenError,
                                >(named_fields_view(args@)),
                            decreases c.arguments@.len() - k,
                        {
                            let a = &c.arguments[k];
                            match type_generator.resolve_type(a.ty, &empty_scope) {
                                Ok(t) => {
                                    let an = a.name.clone();
                                    proof {
                                        assert(named_fields_view(args@.push((an, t)))
                                            =~= named_fields_view(args@).push(
                                            named_field_view((an, t)),
                                        ));
                                    }
                                    args.push((an, t));
                                },
                                Err(e) => {
                                    proof {
                                        lemma_map_result_prefix_err(
                                            c.arguments@,
                                            call_arg_f(regs),
                                            k as int + 1,
                                        );
                                        lemma_map_result_prefix_err(
                                            cs@,
                                            call_f(regs),
                                            j as int + 1,
                                        );
                                        lemma_map_result_prefix_err(
                                            self.metadata.modules@,
                                            module_f(regs),
                                            i as int + 1,
                                        );
                                    }
                                    return Err(e);
                                },
                            }
                            k += 1;
                        }
                        let cd = CallDecl { name: cname, args };
                        proof {
                            assert(calls_view(calls@.push(cd)) =~= calls_view(calls@).push(
                                call_decl_view(cd),
                            ));
                        }
                        calls.push(cd);
                        j += 1;
                    }
                },
                None => {},
            }
            let mut events: Vec<EventDecl> = Vec::new();
            proof {
                assert(events_view(Seq::<EventDecl>::empty()) =~= Seq::<EventDeclView>::empty());
            }
            match &module.event {
                Some(es) => {
                    let mut j: usize = 0;
                    while j < es.len()
                        invariant
                            0 <= j <= es@.len(),
                            map_result_prefix(es@, event_f(regs), j as int) == Ok::<
                                Seq<EventDeclView>,
                                GenError,
                            >(events_view(events@)),
                        decreases es@.len() - j,
                    {
                        let ev = &es[j];
                        let mut args: Vec<TypeExpr> = Vec::new();
                        proof {
                            assert(exprs_view(Seq::<TypeExpr>::empty()) =~= Seq::<
                                TypeExprView,
                            >::empty());
                        }
                        let mut k: usize = 0;
                        while k < ev.arguments.len()
                            invariant
                                0 <= k <= ev.arguments@.len(),
                                map_result_prefix(ev.arguments@, event_arg_f(regs), k as int)
                                    == Ok::<Seq<TypeExprView>, GenError>(exprs_view(args@)),
                            decreases ev.arguments@.len() - k,
                        {
                            match type_generator.resolve_type(ev.arguments[k], &empty_scope) {
                                Ok(t) => {
                                    proof {
                                        assert(exprs_view(args@.push(t)) =~= exprs_view(args@).push(
                                            expr_view(t),
                                        ));
                                    }
                                    args.push(t);
                                },
                                Err(e) => {
                                    proof {
                                        lemma_map_result_prefix_err(
                                            ev.arguments@,
                                            event_arg_f(regs),
                                            k as int + 1,
                                        );
                                        lemma_map_result_prefix_err(
                                            es@,
                                            event_f(regs),
                                            j as int + 1,
                                        );
                                        lemma_map_result_prefix_err(
                                            self.metadata.modules@,
                                            module_f(regs),
                                            i as int + 1,
                                        );
                                    }
                                    return Err(e);
                                },
                            }
                            k += 1;
                        }
                        let ed = EventDecl { name: ev.name.clone(), args };
                        proof {
                            assert(events_view(events@.push(ed)) =~= events_view(events@).push(
                                event_decl_view(ed),
                            ));
                        }
                        events.push(ed);
                        j += 1;
                    }
                },
                None => {},
            }
            let md = ModuleDecls { name: mod_ident, calls, events };
            proof {
                assert(modules_view(modules@.push(md)) =~= modules_view(modules@).push(
                    module_decls_view(md),
                ));
            }
            modules.push(md);
            i += 1;
        }
        Ok(RuntimeModule { name: mod_name.to_owned(), types, modules })
    }
}

} // verus!
