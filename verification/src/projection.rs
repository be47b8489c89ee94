//! Projection steps and the mathematical account of resolving a chain of
//! them: one hop per field access, tuple index, or array index.

use vstd::prelude::*;

use crate::decl::Decl;
use crate::diag::ErrorV;
use crate::ident::{Ident, IdentV};
use crate::span::{spec_join, Span};
use crate::text::{dec_str, join_comma};
use crate::types::{EnginesV, StructFieldV, TypeId, TypeInfoV, spec_render};

verus! {

/// The mathematical value of a [`ProjectionKind`].
pub ghost enum ProjectionKindV {
    StructField { name: IdentV },
    TupleField { index: int, index_span: Span },
    ArrayIndex { index_span: Span },
}

/// One hop of a compound access expression: just enough to resolve the hop
/// and to anchor a diagnostic if it fails.
#[derive(Debug)]
pub enum ProjectionKind {
    /// `.field`
    StructField { name: Ident },
    /// `.3`
    TupleField { index: usize, index_span: Span },
    /// `[i]` — the index itself is not examined at this layer.
    ArrayIndex { index_span: Span },
}

impl View for ProjectionKind {
    type V = ProjectionKindV;

    open spec fn view(&self) -> ProjectionKindV {
        match self {
            ProjectionKind::StructField { name } => ProjectionKindV::StructField { name: name@ },
            ProjectionKind::TupleField { index, index_span } => ProjectionKindV::TupleField {
                index: *index as int,
                index_span: *index_span,
            },
            ProjectionKind::ArrayIndex { index_span } => ProjectionKindV::ArrayIndex {
                index_span: *index_span,
            },
        }
    }
}

/// The first field of `fields` named `name`, if any.
pub open spec fn find_struct_field(fields: Seq<StructFieldV>, name: Seq<char>) -> Option<
    StructFieldV,
>
    decreases fields.len(),
{
    if fields.len() == 0 {
        None
    } else if fields[0].name == name {
        Some(fields[0])
    } else {
        find_struct_field(fields.drop_first(), name)
    }
}

/// The names of `fields`, in order.
pub open spec fn field_names(fields: Seq<StructFieldV>) -> Seq<Seq<char>> {
    fields.map_values(|f: StructFieldV| f.name)
}

/// The running state of a projection walk: the type resolved so far, the
/// type it was reached from, and the diagnostic context accumulated on the
/// way.  The context never influences resolution; it only feeds messages.
pub ghost struct WalkState {
    pub current: TypeId,
    pub parent: TypeId,
    pub symbol_span: Span,
    pub name_acc: Seq<char>,
    pub span_acc: Span,
}

impl WalkState {
    /// The walk's starting state: before any hop, both the current and the
    /// parent type are the base symbol's own type.
    pub open spec fn start(base: IdentV, base_type: TypeId) -> WalkState {
        WalkState {
            current: base_type,
            parent: base_type,
            symbol_span: base.span,
            name_acc: base.name,
            span_acc: base.span,
        }
    }
}

/// Resolve `steps`, in order, starting from `st`.  The first failing hop
/// decides the outcome; a successful walk ends on the final type and the
/// type of its immediate container.
pub open spec fn walk(e: EnginesV, st: WalkState, steps: Seq<ProjectionKindV>) -> Result<
    (TypeId, TypeId),
    ErrorV,
>
    decreases steps.len(),
{
    if steps.len() == 0 {
        Ok((st.current, st.parent))
    } else {
        match e.typeinfo_of(st.current) {
            None => Err(ErrorV::TypeError { span: st.symbol_span }),
            Some(info) => match (info, steps[0]) {
                (
                    TypeInfoV::Struct { decl_id },
                    ProjectionKindV::StructField { name },
                ) => {
                    let sd = e.structs[decl_id];
                    match find_struct_field(sd.fields, name.name) {
                        Some(f) => walk(
                            e,
                            WalkState {
                                current: f.type_id,
                                parent: st.current,
                                symbol_span: name.span,
                                name_acc: st.name_acc + name.name,
                                span_acc: spec_join(st.span_acc, name.span),
                            },
                            steps.drop_first(),
                        ),
                        None => Err(
                            ErrorV::FieldNotFound {
                                field_name: name,
                                struct_name: sd.name,
                                available_fields: join_comma(field_names(sd.fields)),
                            },
                        ),
                    }
                },
                (
                    TypeInfoV::Tuple { elems },
                    ProjectionKindV::TupleField { index, index_span },
                ) => {
                    if 0 <= index < elems.len() {
                        walk(
                            e,
                            WalkState {
                                current: elems[index],
                                parent: st.current,
                                symbol_span: index_span,
                                name_acc: st.name_acc + dec_str(index as nat),
                                span_acc: spec_join(st.span_acc, index_span),
                            },
                            steps.drop_first(),
                        )
                    } else {
                        Err(
                            ErrorV::TupleIndexOutOfBounds {
                                index,
                                count: elems.len() as int,
                                span: spec_join(st.span_acc, index_span),
                            },
                        )
                    }
                },
                (TypeInfoV::Array { elem }, ProjectionKindV::ArrayIndex { index_span }) => walk(
                    e,
                    WalkState {
                        current: elem,
                        parent: st.current,
                        symbol_span: index_span,
                        name_acc: st.name_acc,
                        span_acc: index_span,
                    },
                    steps.drop_first(),
                ),
                (actually, ProjectionKindV::StructField { .. }) => Err(
                    ErrorV::FieldAccessOnNonStruct {
                        span: st.span_acc,
                        actually: spec_render(e, actually),
                    },
                ),
                (actually, ProjectionKindV::TupleField { .. }) => Err(
                    ErrorV::NotATuple {
                        name: st.name_acc,
                        span: st.span_acc,
                        actually: spec_render(e, actually),
                    },
                ),
                (actually, ProjectionKindV::ArrayIndex { .. }) => Err(
                    ErrorV::NotIndexable {
                        name: st.name_acc,
                        span: st.span_acc,
                        actually: spec_render(e, actually),
                    },
                ),
            },
        }
    }
}

/// What resolving a compound access over a scope's symbols returns: the
/// final type and its immediate container's type, or the one diagnostic
/// the first failure produces.
pub open spec fn resolve_subfield(
    symbols: Map<Seq<char>, Decl>,
    e: EnginesV,
    base: IdentV,
    steps: Seq<ProjectionKindV>,
) -> Result<(TypeId, TypeId), ErrorV> {
    if !symbols.contains_key(base.name) {
        Err(ErrorV::UnknownVariable { name: base })
    } else {
        match symbols[base.name].spec_return_type() {
            None => Err(ErrorV::TypeError { span: base.span }),
            Some(t) => walk(e, WalkState::start(base, t), steps),
        }
    }
}

/// Resolution is a pure function of the scope, the registries, the base
/// and the step sequence: any two results of the same resolution agree,
/// so repeated calls return identical (final, container) pairs.
pub proof fn lemma_projection_deterministic(
    symbols: Map<Seq<char>, Decl>,
    e: EnginesV,
    base: IdentV,
    steps: Seq<ProjectionKindV>,
    r1: Result<(TypeId, TypeId), ErrorV>,
    r2: Result<(TypeId, TypeId), ErrorV>,
)
    requires
        r1 == resolve_subfield(symbols, e, base, steps),
        r2 == resolve_subfield(symbols, e, base, steps),
    ensures
        r1 == r2,
{
}

/// A failing walk is decided by its first failing step: appending further
/// steps after the failure changes nothing — they are never evaluated,
/// and the outcome stays that first step's error.
pub proof fn lemma_failure_locality(
    e: EnginesV,
    st: WalkState,
    steps1: Seq<ProjectionKindV>,
    steps2: Seq<ProjectionKindV>,
)
    requires
        walk(e, st, steps1) is Err,
    ensures
        walk(e, st, steps1 + steps2) == walk(e, st, steps1),
    decreases steps1.len(),
{
    let combined = steps1 + steps2;
    if steps1.len() == 0 {
        assert(walk(e, st, steps1) is Ok);
    } else {
        assert(combined[0] == steps1[0]);
        assert(combined.drop_first() =~= steps1.drop_first() + steps2);
        match e.typeinfo_of(st.current) {
            None => {},
            Some(info) => {
                match (info, steps1[0]) {
                    (TypeInfoV::Struct { decl_id }, ProjectionKindV::StructField { name }) => {
                        let sd = e.structs[decl_id];
                        match find_struct_field(sd.fields, name.name) {
                            Some(f) => {
                                lemma_failure_locality(
                                    e,
                                    WalkState {
                                        current: f.type_id,
                                        parent: st.current,
                                        symbol_span: name.span,
                                        name_acc: st.name_acc + name.name,
                                        span_acc: spec_join(st.span_acc, name.span),
                                    },
                                    steps1.drop_first(),
                                    steps2,
                                );
                            },
                            None => {},
                        }
                    },
                    (
                        TypeInfoV::Tuple { elems },
                        ProjectionKindV::TupleField { index, index_span },
                    ) => {
                        if 0 <= index < elems.len() {
                            lemma_failure_locality(
                                e,
                                WalkState {
                                    current: elems[index],
                                    parent: st.current,
                                    symbol_span: index_span,
                                    name_acc: st.name_acc + dec_str(index as nat),
                                    span_acc: spec_join(st.span_acc, index_span),
                                },
                                steps1.drop_first(),
                                steps2,
                            );
                        }
                    },
                    (TypeInfoV::Array { elem }, ProjectionKindV::ArrayIndex { index_span }) => {
                        lemma_failure_locality(
                            e,
                            WalkState {
                                current: elem,
                                parent: st.current,
                                symbol_span: index_span,
                                name_acc: st.name_acc,
                                span_acc: index_span,
                            },
                            steps1.drop_first(),
                            steps2,
                        );
                    },
                    _ => {},
                }
            },
        }
    }
}

/// Failure locality at the resolver's mouth: once a step sequence fails,
/// any longer sequence extending it fails identically.
pub proof fn lemma_resolve_failure_locality(
    symbols: Map<Seq<char>, Decl>,
    e: EnginesV,
    base: IdentV,
    steps1: Seq<ProjectionKindV>,
    steps2: Seq<ProjectionKindV>,
)
    requires
        resolve_subfield(symbols, e, base, steps1) is Err,
    ensures
        resolve_subfield(symbols, e, base, steps1 + steps2) == resolve_subfield(
            symbols,
            e,
            base,
            steps1,
        ),
{
    if symbols.contains_key(base.name) {
        match symbols[base.name].spec_return_type() {
            None => {},
            Some(t) => {
                lemma_failure_locality(e, WalkState::start(base, t), steps1, steps2);
            },
        }
    }
}

} // verus!
