//! The set of items that exist within one lexical scope, via declaration
//! or importing: the symbol table with its shadowing rules, the import and
//! alias registries, the trait-implementation index, and the single
//! contract-storage slot.

use vstd::prelude::*;

use crate::decl::{ConstShadowingMode, Decl, GlobImport, SynonymRecord, SynonymRecordV};
use crate::diag::{CompileError, ErrorEmitted, ErrorV, Handler};
use crate::ident::{Ident, IdentV};
use crate::persist::{
    alias_map_clone,
    alias_map_contents,
    alias_map_get,
    alias_map_insert,
    alias_map_new,
    lex_lt,
    no_aliases,
    no_symbols,
    no_synonyms,
    symbol_map_clone,
    symbol_map_contents,
    symbol_map_get,
    symbol_map_insert,
    symbol_map_keys,
    symbol_map_new,
    synonym_map_clone,
    synonym_map_contents,
    synonym_map_get,
    synonym_map_insert,
    synonym_map_new,
};
use crate::span::Span;
use crate::traits::{
    fn_decls,
    impl_spans_for_trait_spec,
    impl_spans_for_type_spec,
    items_for_type_spec,
    entries_for_type,
    TraitImplEntry,
    TraitImplEntryV,
    TraitItem,
    TraitMap,
};
use crate::projection::{
    find_struct_field,
    field_names,
    resolve_subfield,
    walk,
    ProjectionKind,
    ProjectionKindV,
    WalkState,
};
use crate::text::{join_with_commas, push_decimal, str_eq};
use crate::types::{
    find_storage_field,
    Engines,
    StorageAccess,
    StorageAccessV,
    StorageDecl,
    StorageField,
    StorageRef,
    TypeId,
    TypeInfo,
    TypeInfoV,
};

verus! {

/// The mathematical value of an [`Items`]: every registry of the scope as
/// a map or sequence.
pub ghost struct ItemsV {
    /// Name text to declaration; one entry per name.
    pub symbols: Map<Seq<char>, Decl>,
    /// The trait-implementation index's entries, oldest first.
    pub implemented_traits: Seq<TraitImplEntryV>,
    /// Locally visible imported names to their import records.
    pub use_synonyms: Map<Seq<char>, SynonymRecordV>,
    /// User-chosen aliases to the canonical names they stand for.
    pub use_aliases: Map<Seq<char>, IdentV>,
    /// The scope's storage declaration, if one was set.
    pub declared_storage: Option<StorageRef>,
}

/// A freshly opened scope: everything empty.
pub open spec fn empty_items() -> ItemsV {
    ItemsV {
        symbols: no_symbols(),
        implemented_traits: Seq::empty(),
        use_synonyms: no_synonyms(),
        use_aliases: no_aliases(),
        declared_storage: None,
    }
}

/// The diagnostic, if any, that declaring `new` over `prior` under `mode`
/// must raise: the shadowing rule matrix.  Pairs outside the matrix are
/// silently allowed.
pub open spec fn shadow_diag(
    prior: Decl,
    new: Decl,
    mode: ConstShadowingMode,
    name: IdentV,
) -> Option<ErrorV> {
    if prior is Constant && new is Variable {
        Some(ErrorV::VariableShadowsConstant { name })
    } else if prior is Variable && new is Constant {
        Some(ErrorV::ConstantShadowsVariable { name })
    } else if prior is Constant && new is Constant && mode is ItemStyle {
        Some(ErrorV::MultipleDefinitionsOfConstant { name })
    } else if prior is Constant && new is Constant && mode is Sequential {
        Some(ErrorV::ConstantShadowsConstant { name })
    } else if prior.is_type_like() && new.is_type_like() {
        Some(ErrorV::MultipleDefinitionsOfName { name })
    } else if prior is GenericTypeParameter && new is GenericTypeParameter {
        Some(ErrorV::GenericShadowsGeneric { name })
    } else {
        None
    }
}

/// An optional diagnostic as the (empty or singleton) sequence it appends
/// to the sink.
pub open spec fn opt_diag(o: Option<ErrorV>) -> Seq<ErrorV> {
    match o {
        Some(e) => seq![e],
        None => Seq::empty(),
    }
}

/// Everything inserting `item` under `name` appends to the sink: one
/// diagnostic for a prior declaration, then one for a prior explicit
/// (non-glob) import.  Glob imports neither trigger nor receive any.
pub open spec fn insert_diags(
    s: ItemsV,
    name: IdentV,
    item: Decl,
    mode: ConstShadowingMode,
) -> Seq<ErrorV> {
    (if s.symbols.contains_key(name.name) {
        opt_diag(shadow_diag(s.symbols[name.name], item, mode, name))
    } else {
        Seq::empty()
    }) + (if s.use_synonyms.contains_key(name.name) && s.use_synonyms[name.name].glob is No {
        opt_diag(shadow_diag(s.use_synonyms[name.name].decl, item, mode, name))
    } else {
        Seq::empty()
    })
}

/// The set of items of one lexical scope.  All its registries are backed
/// by persistent maps, so cloning a scope is cheap and the clone's
/// mutations never reach the original.
#[derive(Debug)]
pub struct Items {
    symbols: im::OrdMap<String, Decl>,
    implemented_traits: TraitMap,
    use_synonyms: im::HashMap<String, SynonymRecord, std::collections::hash_map::RandomState>,
    use_aliases: im::HashMap<String, Ident, std::collections::hash_map::RandomState>,
    declared_storage: Option<StorageRef>,
}

impl View for Items {
    type V = ItemsV;

    closed spec fn view(&self) -> ItemsV {
        ItemsV {
            symbols: symbol_map_contents(self.symbols),
            implemented_traits: self.implemented_traits@,
            use_synonyms: synonym_map_contents(self.use_synonyms),
            use_aliases: alias_map_contents(self.use_aliases),
            declared_storage: self.declared_storage,
        }
    }
}

impl Default for Items {
    /// A freshly opened scope.
    fn default() -> (r: Items)
        ensures
            r@ == empty_items(),
    {
        Items {
            symbols: symbol_map_new(),
            implemented_traits: TraitMap::new(),
            use_synonyms: synonym_map_new(),
            use_aliases: alias_map_new(),
            declared_storage: None,
        }
    }
}

impl Clone for Items {
    /// Cloning a scope copies its view; the maps behind it share their
    /// structure, so this is cheap and the clone is independent.
    fn clone(&self) -> (r: Self)
        ensures
            r@ == self@,
    {
        Items {
            symbols: symbol_map_clone(&self.symbols),
            implemented_traits: self.implemented_traits.clone(),
            use_synonyms: synonym_map_clone(&self.use_synonyms),
            use_aliases: alias_map_clone(&self.use_aliases),
            declared_storage: self.declared_storage,
        }
    }
}

/// Append to the sink whatever the shadowing matrix says about declaring
/// `item` where `prior` is already bound to `name`.
fn append_shadowing_error(
    handler: &mut Handler,
    prior: &Decl,
    item: &Decl,
    mode: ConstShadowingMode,
    name: &Ident,
)
    ensures
        final(handler)@ == old(handler)@ + opt_diag(shadow_diag(*prior, *item, mode, name@)),
{
    let ghost h0 = handler@;
    match (prior, item) {
        (Decl::Constant { .. }, Decl::Variable { .. }) => {
            handler.emit_err(CompileError::VariableShadowsConstant { name: name.clone() });
        },
        (Decl::Variable { .. }, Decl::Constant { .. }) => {
            handler.emit_err(CompileError::ConstantShadowsVariable { name: name.clone() });
        },
        (Decl::Constant { .. }, Decl::Constant { .. }) => {
            match mode {
                ConstShadowingMode::ItemStyle => {
                    handler.emit_err(
                        CompileError::MultipleDefinitionsOfConstant { name: name.clone() },
                    );
                },
                ConstShadowingMode::Sequential => {
                    handler.emit_err(
                        CompileError::ConstantShadowsConstant { name: name.clone() },
                    );
                },
            }
        },
        (
            Decl::Struct | Decl::Enum | Decl::TypeAlias | Decl::Trait | Decl::Abi,
            Decl::Struct | Decl::Enum | Decl::TypeAlias | Decl::Trait | Decl::Abi,
        ) => {
            handler.emit_err(CompileError::MultipleDefinitionsOfName { name: name.clone() });
        },
        (Decl::GenericTypeParameter, Decl::GenericTypeParameter) => {
            handler.emit_err(CompileError::GenericShadowsGeneric { name: name.clone() });
        },
        _ => {},
    }
    proof {
        assert(handler@ =~= h0 + opt_diag(shadow_diag(*prior, *item, mode, name@)));
    }
}

impl Items {
    /// Immutable access to the inner symbol map.
    pub fn symbols(&self) -> (r: &im::OrdMap<String, Decl>)
        ensures
            symbol_map_contents(*r) == self@.symbols,
    {
        &self.symbols
    }

    /// Every name currently bound in this scope, each exactly once, in
    /// table order (ascending by name): a deterministic iteration order
    /// for stable diagnostics and code generation.
    pub fn get_all_declared_symbols(&self) -> (r: Vec<String>)
        ensures
            forall|i: int| 0 <= i < r@.len() ==> self@.symbols.contains_key((#[trigger] r@[i])@),
            forall|k: Seq<char>|
                self@.symbols.contains_key(k) ==> exists|i: int|
                    0 <= i < r@.len() && (#[trigger] r@[i])@ == k,
            forall|i: int, j: int| 0 <= i < j < r@.len() ==> lex_lt(r@[i]@, r@[j]@),
    {
        symbol_map_keys(&self.symbols)
    }

    /// Bind `name` to `item`, replacing any prior binding.  If a prior
    /// binding exists — a declaration, or an explicit (non-glob) import —
    /// the shadowing matrix decides which single diagnostic each raises;
    /// the insert itself always goes through and always succeeds: the
    /// table reports, it never blocks, and the last declaration wins.
    pub fn insert_symbol(
        &mut self,
        handler: &mut Handler,
        name: Ident,
        item: Decl,
        const_shadowing_mode: ConstShadowingMode,
    ) -> (r: Result<(), ErrorEmitted>)
        ensures
            r is Ok,
            final(self)@ == (ItemsV {
                symbols: old(self)@.symbols.insert(name@.name, item),
                ..old(self)@
            }),
            final(handler)@ == old(handler)@ + insert_diags(
                old(self)@,
                name@,
                item,
                const_shadowing_mode,
            ),
    {
        let ghost s0 = self@;
        let ghost h0 = handler@;
        if let Some(prior) = symbol_map_get(&self.symbols, name.as_str()) {
            let prior = *prior;
            append_shadowing_error(handler, &prior, &item, const_shadowing_mode, &name);
        }
        let ghost h1 = handler@;
        proof {
            assert(h1 =~= h0 + (if s0.symbols.contains_key(name@.name) {
                opt_diag(shadow_diag(s0.symbols[name@.name], item, const_shadowing_mode, name@))
            } else {
                Seq::<ErrorV>::empty()
            }));
        }
        if let Some(record) = synonym_map_get(&self.use_synonyms, name.as_str()) {
            match record.glob {
                GlobImport::No => {
                    let prior = record.decl;
                    append_shadowing_error(handler, &prior, &item, const_shadowing_mode, &name);
                },
                GlobImport::Yes => {},
            }
        }
        proof {
            assert(handler@ =~= h0 + insert_diags(s0, name@, item, const_shadowing_mode));
        }
        symbol_map_insert(&mut self.symbols, name.into_name(), item);
        Ok(())
    }

    /// The declaration bound to `name` in this scope, or a
    /// `SymbolNotFound` error if the name is absent.  Pure lookup: the
    /// error is handed back, not recorded in any sink.
    pub fn check_symbol(&self, name: &Ident) -> (r: Result<&Decl, CompileError>)
        ensures
            match r {
                Ok(d) => self@.symbols.contains_key(name@.name) && *d == self@.symbols[name@.name],
                Err(e) => !self@.symbols.contains_key(name@.name) && e@ == (ErrorV::SymbolNotFound {
                    name: name@,
                }),
            },
    {
        match symbol_map_get(&self.symbols, name.as_str()) {
            Some(d) => Ok(d),
            None => Err(CompileError::SymbolNotFound { name: name.clone() }),
        }
    }

    /// Record what an import statement bound `name` to.  An explicit
    /// record takes part in shadowing checks against later declarations;
    /// a glob record does not.
    pub fn insert_use_synonym(&mut self, name: Ident, record: SynonymRecord)
        ensures
            final(self)@ == (ItemsV {
                use_synonyms: old(self)@.use_synonyms.insert(name@.name, record@),
                ..old(self)@
            }),
    {
        synonym_map_insert(&mut self.use_synonyms, name.into_name(), record);
    }

    /// The import record for `name`, if any.
    pub fn get_use_synonym(&self, name: &Ident) -> (r: Option<&SynonymRecord>)
        ensures
            match r {
                Some(rec) => self@.use_synonyms.contains_key(name@.name) && rec@
                    == self@.use_synonyms[name@.name],
                None => !self@.use_synonyms.contains_key(name@.name),
            },
    {
        synonym_map_get(&self.use_synonyms, name.as_str())
    }

    /// Record `alias` as an alternative name for `canonical`.
    pub fn insert_use_alias(&mut self, alias: String, canonical: Ident)
        ensures
            final(self)@ == (ItemsV {
                use_aliases: old(self)@.use_aliases.insert(alias@, canonical@),
                ..old(self)@
            }),
    {
        alias_map_insert(&mut self.use_aliases, alias, canonical);
    }

    /// The canonical identifier `alias` stands for, if any.
    pub fn get_use_alias(&self, alias: &str) -> (r: Option<&Ident>)
        ensures
            match r {
                Some(id) => self@.use_aliases.contains_key(alias@) && id@
                    == self@.use_aliases[alias@],
                None => !self@.use_aliases.contains_key(alias@),
            },
    {
        alias_map_get(&self.use_aliases, alias)
    }

    /// Record one trait impl in this scope's index.
    pub fn insert_trait_impl(&mut self, entry: TraitImplEntry)
        ensures
            final(self)@ == (ItemsV {
                implemented_traits: old(self)@.implemented_traits.push(entry@),
                ..old(self)@
            }),
    {
        self.implemented_traits.insert_impl(entry);
    }

    /// Copy, under `type_id`, every index entry already recorded for
    /// `type_id`; entries for other types are untouched.
    pub fn insert_trait_implementation_for_type(&mut self, engines: &Engines, type_id: TypeId)
        ensures
            final(self)@ == (ItemsV {
                implemented_traits: old(self)@.implemented_traits + entries_for_type(
                    old(self)@.implemented_traits,
                    type_id,
                ),
                ..old(self)@
            }),
    {
        self.implemented_traits.insert_for_type(engines, type_id);
    }

    /// All trait items available on `type_id`, in index order.
    pub fn get_items_for_type(&self, engines: &Engines, type_id: TypeId) -> (r: Vec<TraitItem>)
        ensures
            r@ == items_for_type_spec(self@.implemented_traits, type_id),
    {
        self.implemented_traits.get_items_for_type(engines, type_id)
    }

    /// The impl sites relevant to a declaration: those recorded for its
    /// use-site type.  A declaration without a use-site type has none;
    /// whatever that resolution would have reported is discarded.
    pub fn get_impl_spans_for_decl(&self, engines: &Engines, ty_decl: &Decl) -> (r: Vec<Span>)
        ensures
            r@ == match ty_decl.spec_return_type() {
                Some(t) => impl_spans_for_type_spec(self@.implemented_traits, t),
                None => Seq::<Span>::empty(),
            },
    {
        match ty_decl.return_type() {
            Some(type_id) => self.get_impl_spans_for_type(engines, &type_id),
            None => Vec::new(),
        }
    }

    /// The impl sites recorded for `type_id`, in index order.
    pub fn get_impl_spans_for_type(&self, engines: &Engines, type_id: &TypeId) -> (r: Vec<Span>)
        ensures
            r@ == impl_spans_for_type_spec(self@.implemented_traits, *type_id),
    {
        self.implemented_traits.get_impl_spans_for_type(engines, type_id)
    }

    /// The impl sites recorded for the trait named `trait_name`, in index
    /// order.
    pub fn get_impl_spans_for_trait_name(&self, trait_name: &String) -> (r: Vec<Span>)
        ensures
            r@ == impl_spans_for_trait_spec(self@.implemented_traits, trait_name@),
    {
        self.implemented_traits.get_impl_spans_for_trait_name(trait_name)
    }

    /// The function items among everything available on `type_id`, by
    /// declaration handle, in index order; constants are filtered out.
    pub fn get_methods_for_type(&self, engines: &Engines, type_id: TypeId) -> (r: Vec<usize>)
        ensures
            r@ == fn_decls(items_for_type_spec(self@.implemented_traits, type_id)),
    {
        let items = self.get_items_for_type(engines, type_id);
        let ghost all = items@;
        let mut r: Vec<usize> = Vec::new();
        let mut i: usize = 0;
        while i < items.len()
            invariant
                i <= items.len(),
                all == items@,
                r@ == fn_decls(all.take(i as int)),
            decreases items.len() - i,
        {
            proof {
                assert(all.take(i as int + 1).drop_last() =~= all.take(i as int));
                assert(all.take(i as int + 1).last() == all[i as int]);
            }
            match items[i] {
                TraitItem::Fn { decl_id } => {
                    r.push(decl_id);
                    proof {
                        assert(fn_decls(all.take(i as int)) + seq![decl_id]
                            =~= fn_decls(all.take(i as int)).push(decl_id));
                    }
                },
                TraitItem::Constant { .. } => {
                    proof {
                        assert(r@ + Seq::<usize>::empty() =~= r@);
                    }
                },
            }
            i += 1;
        }
        proof {
            assert(all.take(all.len() as int) =~= all);
        }
        r
    }

    /// Resolve the base identifier and then every projection step, in
    /// order, down to a pair of type handles: the final type of the
    /// access, and the type of its immediate container — for an empty
    /// step sequence, both are the base symbol's own type.  The first
    /// failing step decides the single diagnostic recorded in the sink
    /// and aborts the walk; no later step is evaluated.
    pub fn find_subfield_type(
        &self,
        handler: &mut Handler,
        engines: &Engines,
        base_name: &Ident,
        projections: &[ProjectionKind],
    ) -> (r: Result<(TypeId, TypeId), ErrorEmitted>)
        requires
            engines@.wf(),
        ensures
            ({
                let steps = projections@.map_values(|p: ProjectionKind| p@);
                match resolve_subfield(self@.symbols, engines@, base_name@, steps) {
                    Ok(pair) => r == Ok::<(TypeId, TypeId), ErrorEmitted>(pair) && final(handler)@
                        == old(handler)@,
                    Err(e) => r is Err && final(handler)@ == old(handler)@.push(e),
                }
            }),
    {
        let ghost steps = projections@.map_values(|p: ProjectionKind| p@);
        let ghost goal = resolve_subfield(self@.symbols, engines@, base_name@, steps);

        let decl = match symbol_map_get(&self.symbols, base_name.as_str()) {
            Some(d) => *d,
            None => {
                let err = CompileError::UnknownVariable { name: base_name.clone() };
                let ghost ev = err@;
                proof {
                    assert(goal == Err::<(TypeId, TypeId), ErrorV>(ev));
                }
                let token = handler.emit_err(err);
                return Err(token);
            },
        };
        let mut symbol: TypeId = match decl.return_type() {
            Some(t) => t,
            None => {
                let err = CompileError::TypeError { span: base_name.span() };
                let ghost ev = err@;
                proof {
                    assert(goal == Err::<(TypeId, TypeId), ErrorV>(ev));
                }
                let token = handler.emit_err(err);
                return Err(token);
            },
        };
        let mut symbol_span: Span = base_name.span();
        let mut parent_rover: TypeId = symbol;
        let mut full_name_for_error: String = base_name.name_string();
        let mut full_span_for_error: Span = base_name.span();
        proof {
            assert(steps.skip(0) =~= steps);
        }
        let mut i: usize = 0;
        while i < projections.len()
            invariant
                i <= projections.len(),
                steps == projections@.map_values(|p: ProjectionKind| p@),
                steps.len() == projections@.len(),
                engines@.wf(),
                handler@ == old(handler)@,
                goal == resolve_subfield(self@.symbols, engines@, base_name@, steps),
                goal == walk(
                    engines@,
                    WalkState {
                        current: symbol,
                        parent: parent_rover,
                        symbol_span: symbol_span,
                        name_acc: full_name_for_error@,
                        span_acc: full_span_for_error,
                    },
                    steps.skip(i as int),
                ),
            decreases projections.len() - i,
        {
            let ghost st = WalkState {
                current: symbol,
                parent: parent_rover,
                symbol_span: symbol_span,
                name_acc: full_name_for_error@,
                span_acc: full_span_for_error,
            };
            proof {
                assert(steps.skip(i as int)[0] == steps[i as int]);
                assert(steps.skip(i as int).drop_first() =~= steps.skip(i as int + 1));
            }
            let resolved = match engines.to_typeinfo(symbol) {
                Some(info) => info,
                None => {
                    let err = CompileError::TypeError { span: symbol_span };
                    let ghost ev = err@;
                    proof {
                        assert(goal == Err::<(TypeId, TypeId), ErrorV>(ev));
                    }
                    let token = handler.emit_err(err);
                    return Err(token);
                },
            };
            proof {
                assert(resolved@ matches TypeInfoV::Struct { decl_id } ==> 0 <= decl_id
                    < engines@.structs.len()) by {
                    assert(engines@.types[symbol.index as int] == resolved@);
                }
            }
            match (resolved, &projections[i]) {
                (TypeInfo::Struct { decl_id }, ProjectionKind::StructField { name: field_name }) => {
                    let struct_decl = engines.get_struct(*decl_id);
                    let ghost sfields = struct_decl@.fields;
                    proof {
                        assert(sfields.skip(0) =~= sfields);
                    }
                    let mut found: Option<TypeId> = None;
                    let mut j: usize = 0;
                    while j < struct_decl.fields.len()
                        invariant
                            j <= struct_decl.fields.len(),
                            sfields == struct_decl@.fields,
                            sfields.len() == struct_decl.fields@.len(),
                            found is None ==> find_struct_field(sfields, field_name@.name)
                                == find_struct_field(sfields.skip(j as int), field_name@.name),
                            found matches Some(t) ==> find_struct_field(sfields, field_name@.name)
                                matches Some(f) && f.type_id == t,
                        decreases struct_decl.fields.len() - j,
                    {
                        proof {
                            assert(sfields.skip(j as int)[0] == sfields[j as int]);
                            assert(sfields.skip(j as int).drop_first() =~= sfields.skip(
                                j as int + 1,
                            ));
                        }
                        if found.is_none() && str_eq(
                            struct_decl.fields[j].name.as_str(),
                            field_name.as_str(),
                        ) {
                            found = Some(struct_decl.fields[j].type_id);
                        }
                        j += 1;
                    }
                    proof {
                        assert(sfields.skip(sfields.len() as int) =~= Seq::<
                            crate::types::StructFieldV,
                        >::empty());
                    }
                    match found {
                        Some(field_type) => {
                            parent_rover = symbol;
                            symbol = field_type;
                            symbol_span = field_name.span();
                            full_name_for_error.append(field_name.as_str());
                            full_span_for_error = full_span_for_error.join(field_name.span());
                            proof {
                                assert(goal == walk(
                                    engines@,
                                    WalkState {
                                        current: symbol,
                                        parent: parent_rover,
                                        symbol_span: symbol_span,
                                        name_acc: full_name_for_error@,
                                        span_acc: full_span_for_error,
                                    },
                                    steps.skip(i as int + 1),
                                ));
                            }
                        },
                        None => {
                            let mut names: Vec<String> = Vec::new();
                            let mut k: usize = 0;
                            while k < struct_decl.fields.len()
                                invariant
                                    k <= struct_decl.fields.len(),
                                    sfields == struct_decl@.fields,
                                    sfields.len() == struct_decl.fields@.len(),
                                    names@.map_values(|s: String| s@) == field_names(
                                        sfields,
                                    ).take(k as int),
                                decreases struct_decl.fields.len() - k,
                            {
                                let ghost before = names@;
                                names.push(struct_decl.fields[k].name.clone());
                                proof {
                                    assert(names@.map_values(|s: String| s@)
                                        =~= before.map_values(|s: String| s@).push(
                                        names@.last()@,
                                    ));
                                    assert(field_names(sfields).take(k as int).push(
                                        sfields[k as int].name,
                                    ) =~= field_names(sfields).take(k as int + 1));
                                }
                                k += 1;
                            }
                            proof {
                                assert(field_names(sfields).take(sfields.len() as int)
                                    =~= field_names(sfields));
                            }
                            let available_fields = join_with_commas(&names);
                            let err = CompileError::FieldNotFound {
                                field_name: field_name.clone(),
                                struct_name: struct_decl.name.clone(),
                                available_fields,
                            };
                            let ghost ev = err@;
                            proof {
                                assert(goal == Err::<(TypeId, TypeId), ErrorV>(ev));
                            }
                            let token = handler.emit_err(err);
                            return Err(token);
                        },
                    }
                },
                (TypeInfo::Tuple { elems }, ProjectionKind::TupleField { index, index_span }) => {
                    if *index < elems.len() {
                        let field_type = elems[*index];
                        parent_rover = symbol;
                        symbol = field_type;
                        symbol_span = *index_span;
                        push_decimal(&mut full_name_for_error, *index);
                        full_span_for_error = full_span_for_error.join(*index_span);
                        proof {
                            assert(goal == walk(
                                engines@,
                                WalkState {
                                    current: symbol,
                                    parent: parent_rover,
                                    symbol_span: symbol_span,
                                    name_acc: full_name_for_error@,
                                    span_acc: full_span_for_error,
                                },
                                steps.skip(i as int + 1),
                            ));
                        }
                    } else {
                        let err = CompileError::TupleIndexOutOfBounds {
                            index: *index,
                            count: elems.len(),
                            span: full_span_for_error.join(*index_span),
                        };
                        let ghost ev = err@;
                        proof {
                            assert(goal == Err::<(TypeId, TypeId), ErrorV>(ev));
                        }
                        let token = handler.emit_err(err);
                        return Err(token);
                    }
                },
                (TypeInfo::Array { elem }, ProjectionKind::ArrayIndex { index_span }) => {
                    parent_rover = symbol;
                    symbol = *elem;
                    symbol_span = *index_span;
                    full_span_for_error = *index_span;
                    proof {
                        assert(goal == walk(
                            engines@,
                            WalkState {
                                current: symbol,
                                parent: parent_rover,
                                symbol_span: symbol_span,
                                name_acc: full_name_for_error@,
                                span_acc: full_span_for_error,
                            },
                            steps.skip(i as int + 1),
                        ));
                    }
                },
                (actually, ProjectionKind::StructField { .. }) => {
                    let rendered = engines.render(actually);
                    let err = CompileError::FieldAccessOnNonStruct {
                        span: full_span_for_error,
                        actually: rendered,
                    };
                    let ghost ev = err@;
                    proof {
                        assert(goal == Err::<(TypeId, TypeId), ErrorV>(ev));
                    }
                    let token = handler.emit_err(err);
                    return Err(token);
                },
                (actually, ProjectionKind::TupleField { .. }) => {
                    let rendered = engines.render(actually);
                    let err = CompileError::NotATuple {
                        name: full_name_for_error,
                        span: full_span_for_error,
                        actually: rendered,
                    };
                    let ghost ev = err@;
                    proof {
                        assert(goal == Err::<(TypeId, TypeId), ErrorV>(ev));
                    }
                    let token = handler.emit_err(err);
                    return Err(token);
                },
                (actually, ProjectionKind::ArrayIndex { .. }) => {
                    let rendered = engines.render(actually);
                    let err = CompileError::NotIndexable {
                        name: full_name_for_error,
                        span: full_span_for_error,
                        actually: rendered,
                    };
                    let ghost ev = err@;
                    proof {
                        assert(goal == Err::<(TypeId, TypeId), ErrorV>(ev));
                    }
                    let token = handler.emit_err(err);
                    return Err(token);
                },
            }
            i += 1;
        }
        proof {
            assert(steps.skip(projections@.len() as int) =~= Seq::<ProjectionKindV>::empty());
        }
        Ok((symbol, parent_rover))
    }

    /// Resolve a storage access: fails with `NoDeclaredStorage` —
    /// recorded in the sink, anchored at the first path element — when
    /// the slot is empty; otherwise the storage entity itself resolves
    /// the field path against the supplied descriptors and the access
    /// comes back with its type.
    pub fn apply_storage_load(
        &self,
        handler: &mut Handler,
        engines: &Engines,
        fields: Vec<Ident>,
        storage_fields: &[StorageField],
        storage_keyword_span: Span,
    ) -> (r: Result<(StorageAccess, TypeId), ErrorEmitted>)
        requires
            fields@.len() > 0,
            self@.declared_storage matches Some(dr) ==> dr.id < engines@.storages.len(),
        ensures
            match self@.declared_storage {
                None => r is Err && final(handler)@ == old(handler)@.push(
                    ErrorV::NoDeclaredStorage { span: fields@[0]@.span },
                ),
                Some(_) => match find_storage_field(
                    storage_fields@.map_values(|f: StorageField| f@),
                    fields@[0]@.name,
                ) {
                    Some(f) => r matches Ok(pair) && pair.0@
                        == (StorageAccessV {
                        fields: fields@.map_values(|i: Ident| i@),
                        storage_keyword_span,
                    }) && pair.1 == f.type_id && final(handler)@ == old(handler)@,
                    None => r is Err && final(handler)@ == old(handler)@.push(
                        ErrorV::StorageFieldDoesNotExist { field_name: fields@[0]@ },
                    ),
                },
            },
    {
        match &self.declared_storage {
            Some(decl_ref) => {
                let storage = engines.get_storage(decl_ref);
                storage.apply_storage_load(handler, fields, storage_fields, storage_keyword_span)
            },
            None => {
                let token = handler.emit_err(
                    CompileError::NoDeclaredStorage { span: fields[0].span() },
                );
                Err(token)
            },
        }
    }

    /// Occupy the scope's storage slot, or fail with
    /// `MultipleStorageDeclarations` — recorded in the sink — if it is
    /// already occupied.  The slot holds at most one declaration, ever.
    pub fn set_storage_declaration(&mut self, handler: &mut Handler, decl_ref: StorageRef) -> (r:
        Result<(), ErrorEmitted>)
        ensures
            match old(self)@.declared_storage {
                Some(_) => r is Err && final(self)@ == old(self)@ && final(handler)@ == old(
                    handler,
                )@.push(ErrorV::MultipleStorageDeclarations { span: decl_ref.span }),
                None => r is Ok && final(self)@ == (ItemsV {
                    declared_storage: Some(decl_ref),
                    ..old(self)@
                }) && final(handler)@ == old(handler)@,
            },
    {
        if self.declared_storage.is_some() {
            let token = handler.emit_err(
                CompileError::MultipleStorageDeclarations { span: decl_ref.span },
            );
            return Err(token);
        }
        self.declared_storage = Some(decl_ref);
        Ok(())
    }

    /// Whether the storage slot is occupied.
    pub fn has_storage_declared(&self) -> (r: bool)
        ensures
            r == (self@.declared_storage is Some),
    {
        self.declared_storage.is_some()
    }

    /// The storage declaration the slot points at, if the slot is
    /// occupied.  Absence and presence are both legal states.
    pub fn get_declared_storage<'a>(&self, engines: &'a Engines) -> (r: Option<&'a StorageDecl>)
        requires
            self@.declared_storage matches Some(dr) ==> dr.id < engines@.storages.len(),
        ensures
            match r {
                Some(storage) => self@.declared_storage matches Some(dr) && storage@
                    == engines@.storages[dr.id as int],
                None => self@.declared_storage is None,
            },
    {
        match &self.declared_storage {
            Some(decl_ref) => Some(engines.get_storage(decl_ref)),
            None => None,
        }
    }

    /// The storage declaration's field list, or `NoDeclaredStorage` —
    /// recorded in the sink — exactly when the slot is empty.  No
    /// caller-supplied location exists on this path, so the diagnostic is
    /// anchored at a synthetic zero-length placeholder location.
    pub fn get_storage_field_descriptors(&self, handler: &mut Handler, engines: &Engines) -> (r:
        Result<Vec<StorageField>, ErrorEmitted>)
        requires
            self@.declared_storage matches Some(dr) ==> dr.id < engines@.storages.len(),
        ensures
            match r {
                Ok(fields) => self@.declared_storage matches Some(dr) && fields@.map_values(
                    |f: StorageField| f@,
                ) == engines@.storages[dr.id as int].fields && final(handler)@ == old(handler)@,
                Err(_) => self@.declared_storage is None && final(handler)@ == old(
                    handler,
                )@.push(ErrorV::NoDeclaredStorage { span: Span { start: 0, end: 0 } }),
            },
    {
        match self.get_declared_storage(engines) {
            Some(storage) => Ok(storage.fields_copy()),
            None => {
                let token = handler.emit_err(
                    CompileError::NoDeclaredStorage { span: Span::synthetic() },
                );
                Err(token)
            },
        }
    }
}

/// Uniqueness of table entries: after an insert the name is bound, bound
/// to exactly the inserted declaration, and no other name's binding moves
/// — so after any sequence of inserts the table holds one entry per
/// distinct name, equal to the last declaration inserted for it.
pub proof fn lemma_insert_last_wins(s: ItemsV, name: IdentV, item: Decl)
    ensures
        s.symbols.insert(name.name, item).contains_key(name.name),
        s.symbols.insert(name.name, item)[name.name] == item,
        forall|k: Seq<char>|
            k != name.name ==> (s.symbols.insert(name.name, item).contains_key(k)
                <==> s.symbols.contains_key(k)),
        forall|k: Seq<char>|
            k != name.name && s.symbols.contains_key(k) ==> s.symbols.insert(name.name, item)[k]
                == s.symbols[k],
{
}

/// Re-inserting under one name keeps only the later declaration: the
/// earlier insert leaves no trace in the table.
pub proof fn lemma_insert_overwrites(s: ItemsV, name: IdentV, first: Decl, second: Decl)
    ensures
        s.symbols.insert(name.name, first).insert(name.name, second) == s.symbols.insert(
            name.name,
            second,
        ),
{
    assert(s.symbols.insert(name.name, first).insert(name.name, second) =~= s.symbols.insert(
        name.name,
        second,
    ));
}

/// The shadowing matrix, row by row, and its totality: every listed
/// (prior, new, context) combination yields exactly the listed diagnostic
/// kind, and every combination outside the matrix yields none.
pub proof fn lemma_shadow_matrix_totality(
    prior: Decl,
    new: Decl,
    mode: ConstShadowingMode,
    name: IdentV,
)
    ensures
        prior is Constant && new is Variable ==> shadow_diag(prior, new, mode, name) == Some(
            ErrorV::VariableShadowsConstant { name },
        ),
        prior is Variable && new is Constant ==> shadow_diag(prior, new, mode, name) == Some(
            ErrorV::ConstantShadowsVariable { name },
        ),
        prior is Constant && new is Constant && mode is ItemStyle ==> shadow_diag(
            prior,
            new,
            mode,
            name,
        ) == Some(ErrorV::MultipleDefinitionsOfConstant { name }),
        prior is Constant && new is Constant && mode is Sequential ==> shadow_diag(
            prior,
            new,
            mode,
            name,
        ) == Some(ErrorV::ConstantShadowsConstant { name }),
        prior.is_type_like() && new.is_type_like() ==> shadow_diag(prior, new, mode, name) == Some(
            ErrorV::MultipleDefinitionsOfName { name },
        ),
        prior is GenericTypeParameter && new is GenericTypeParameter ==> shadow_diag(
            prior,
            new,
            mode,
            name,
        ) == Some(ErrorV::GenericShadowsGeneric { name }),
        !((prior is Constant && new is Variable) || (prior is Variable && new is Constant) || (
        prior is Constant && new is Constant) || (prior.is_type_like() && new.is_type_like()) || (
        prior is GenericTypeParameter && new is GenericTypeParameter)) ==> shadow_diag(
            prior,
            new,
            mode,
            name,
        ) is None,
{
}

/// What one insert appends to the sink, where the name is already bound
/// by a direct declaration and by no import: exactly the matrix's verdict
/// on (prior, new, context), one diagnostic or none.
pub proof fn lemma_insert_emits_matrix_diag(
    s: ItemsV,
    name: IdentV,
    prior: Decl,
    item: Decl,
    mode: ConstShadowingMode,
)
    requires
        s.symbols.contains_key(name.name),
        s.symbols[name.name] == prior,
        !s.use_synonyms.contains_key(name.name),
    ensures
        insert_diags(s, name, item, mode) == opt_diag(shadow_diag(prior, item, mode, name)),
{
    assert(insert_diags(s, name, item, mode) =~= opt_diag(shadow_diag(prior, item, mode, name)));
}

/// A glob import neither triggers nor receives shadowing diagnostics:
/// where the only prior binding for a name is a glob-import record, an
/// insert under that name appends nothing to the sink.
pub proof fn lemma_glob_import_exempt(s: ItemsV, name: IdentV, item: Decl, mode: ConstShadowingMode)
    requires
        !s.symbols.contains_key(name.name),
        s.use_synonyms.contains_key(name.name) ==> s.use_synonyms[name.name].glob is Yes,
    ensures
        insert_diags(s, name, item, mode) == Seq::<ErrorV>::empty(),
{
    assert(insert_diags(s, name, item, mode) =~= Seq::<ErrorV>::empty());
}

} // verus!
