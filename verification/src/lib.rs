//! Lexical-scope symbol table and member-access resolution for a statically
//! typed language: per-scope name bindings with shadowing diagnostics, a
//! single contract-storage slot, and a resolver that walks chained
//! field/tuple-index/array-index accesses down to concrete types.

mod decl;
mod diag;
mod ident;
mod traits;
mod items;
mod persist;
mod projection;
mod span;
mod text;
mod types;

pub use decl::{ConstShadowingMode, Decl, GlobImport, SynonymRecord, SynonymRecordV};
pub use diag::{CompileError, ErrorEmitted, ErrorV, Handler};
pub use items::{
    empty_items, insert_diags, lemma_glob_import_exempt, lemma_insert_emits_matrix_diag,
    lemma_insert_last_wins, lemma_insert_overwrites, lemma_shadow_matrix_totality, opt_diag,
    shadow_diag, Items, ItemsV,
};
pub use persist::{lex_lt, symbol_map_contents};
pub use projection::{
    field_names, find_struct_field, lemma_failure_locality, lemma_projection_deterministic,
    lemma_resolve_failure_locality, resolve_subfield, walk, ProjectionKind, ProjectionKindV,
    WalkState,
};
pub use traits::{
    entries_for_type, fn_decls, impl_spans_for_trait_spec, impl_spans_for_type_spec,
    items_for_type_spec, TraitImplEntry, TraitImplEntryV, TraitItem, TraitMap,
};
pub use types::{
    find_storage_field, spec_render, Engines, EnginesV, StorageAccess, StorageAccessV,
    StorageDecl, StorageDeclV, StorageField, StorageFieldV, StorageRef, StructDecl, StructDeclV,
    StructField, StructFieldV, TypeId, TypeInfo, TypeInfoV,
};
pub use span::spec_join;
pub use text::{dec_str, digit_char, join_comma};
pub use ident::{Ident, IdentV};
pub use span::Span;
