//! The persistent (structurally shared) maps that back a scope, from the
//! `im` crate.  Cloning a scope is cheap and never perturbs the original;
//! inserts on a clone leave structure shared with the parent untouched.
//!
//! Verus sees these containers only through the trusted declarations and
//! wrappers in this module.  Each map's contents are named by a spec
//! function keyed by the name text, which is exactly how the maps compare
//! keys: `String` equality and order are by content.

use vstd::prelude::*;

use crate::decl::{Decl, SynonymRecord, SynonymRecordV};
use crate::ident::{Ident, IdentV};

verus! {

/// Strict lexicographic order on name text, by character code.  For valid
/// UTF-8 this coincides with the byte order `String`'s `Ord` uses.
pub open spec fn lex_lt(a: Seq<char>, b: Seq<char>) -> bool
    decreases a.len(),
{
    if b.len() == 0 {
        false
    } else if a.len() == 0 {
        true
    } else if a[0] == b[0] {
        lex_lt(a.drop_first(), b.drop_first())
    } else {
        (a[0] as u32) < (b[0] as u32)
    }
}

/// The empty symbol-map contents.
pub open spec fn no_symbols() -> Map<Seq<char>, Decl> {
    Map::empty()
}

/// The empty synonym-map contents.
pub open spec fn no_synonyms() -> Map<Seq<char>, SynonymRecordV> {
    Map::empty()
}

/// The empty alias-map contents.
pub open spec fn no_aliases() -> Map<Seq<char>, IdentV> {
    Map::empty()
}

#[verifier::external_type_specification]
#[verifier::external_body]
#[verifier::reject_recursive_types(K)]
#[verifier::reject_recursive_types(V)]
pub struct ExOrdMap<K, V>(im::OrdMap<K, V>);

#[verifier::external_type_specification]
#[verifier::external_body]
#[verifier::reject_recursive_types(K)]
#[verifier::reject_recursive_types(V)]
#[verifier::reject_recursive_types(S)]
pub struct ExHashMap<K, V, S>(im::HashMap<K, V, S>);

/// The mappings a symbol map holds, keyed by name text.
pub uninterp spec fn symbol_map_contents(m: im::OrdMap<String, Decl>) -> Map<Seq<char>, Decl>;

/// The mappings a synonym map holds, keyed by the locally visible name.
pub uninterp spec fn synonym_map_contents(
    m: im::HashMap<String, SynonymRecord, std::collections::hash_map::RandomState>,
) -> Map<Seq<char>, SynonymRecordV>;

/// The mappings an alias map holds, keyed by the user-chosen alias.
pub uninterp spec fn alias_map_contents(
    m: im::HashMap<String, Ident, std::collections::hash_map::RandomState>,
) -> Map<Seq<char>, IdentV>;

/// Relies on im::OrdMap::new: the fresh map holds no mappings.
#[verifier::external_body]
pub(crate) fn symbol_map_new() -> (m: im::OrdMap<String, Decl>)
    ensures
        symbol_map_contents(m) == no_symbols(),
{
    im::OrdMap::new()
}

/// Relies on im::OrdMap::insert: maps the key to the new value and keeps
/// every other mapping; an existing entry for the key is overwritten.
#[verifier::external_body]
pub(crate) fn symbol_map_insert(m: &mut im::OrdMap<String, Decl>, key: String, value: Decl)
    ensures
        symbol_map_contents(*final(m)) == symbol_map_contents(*old(m)).insert(key@, value),
{
    m.insert(key, value);
}

/// Relies on im::OrdMap::get: returns the value bound to the key, if any.
#[verifier::external_body]
pub(crate) fn symbol_map_get<'a>(m: &'a im::OrdMap<String, Decl>, key: &str) -> (r: Option<
    &'a Decl,
>)
    ensures
        match r {
            Some(d) => symbol_map_contents(*m).contains_key(key@) && *d == symbol_map_contents(
                *m,
            )[key@],
            None => !symbol_map_contents(*m).contains_key(key@),
        },
{
    m.get(key)
}

/// Relies on im::OrdMap::clone: the clone holds the same mappings and
/// shares structure with the original.
#[verifier::external_body]
pub(crate) fn symbol_map_clone(m: &im::OrdMap<String, Decl>) -> (r: im::OrdMap<String, Decl>)
    ensures
        symbol_map_contents(r) == symbol_map_contents(*m),
{
    m.clone()
}

/// Relies on im::OrdMap::keys: yields every key exactly once, in the
/// ascending order of `String`'s `Ord` (lexicographic by content).
#[verifier::external_body]
pub(crate) fn symbol_map_keys(m: &im::OrdMap<String, Decl>) -> (r: Vec<String>)
    ensures
        forall|i: int| 0 <= i < r@.len() ==> symbol_map_contents(*m).contains_key((#[trigger] r@[i])@),
        forall|k: Seq<char>|
            symbol_map_contents(*m).contains_key(k) ==> exists|i: int|
                0 <= i < r@.len() && (#[trigger] r@[i])@ == k,
        forall|i: int, j: int| 0 <= i < j < r@.len() ==> lex_lt(r@[i]@, r@[j]@),
{
    m.keys().cloned().collect()
}

/// Relies on im::HashMap::new: the fresh map holds no mappings.
#[verifier::external_body]
pub(crate) fn synonym_map_new() -> (m: im::HashMap<
    String,
    SynonymRecord,
    std::collections::hash_map::RandomState,
>)
    ensures
        synonym_map_contents(m) == no_synonyms(),
{
    im::HashMap::new()
}

/// Relies on im::HashMap::insert: maps the key to the new value and keeps
/// every other mapping; an existing entry for the key is overwritten.
#[verifier::external_body]
pub(crate) fn synonym_map_insert(
    m: &mut im::HashMap<String, SynonymRecord, std::collections::hash_map::RandomState>,
    key: String,
    value: SynonymRecord,
)
    ensures
        synonym_map_contents(*final(m)) == synonym_map_contents(*old(m)).insert(key@, value@),
{
    m.insert(key, value);
}

/// Relies on im::HashMap::get: returns the value bound to the key, if any.
#[verifier::external_body]
pub(crate) fn synonym_map_get<'a>(
    m: &'a im::HashMap<String, SynonymRecord, std::collections::hash_map::RandomState>,
    key: &str,
) -> (r: Option<&'a SynonymRecord>)
    ensures
        match r {
            Some(rec) => synonym_map_contents(*m).contains_key(key@) && rec@
                == synonym_map_contents(*m)[key@],
            None => !synonym_map_contents(*m).contains_key(key@),
        },
{
    m.get(key)
}

/// Relies on im::HashMap::clone: the clone holds the same mappings and
/// shares structure with the original.
#[verifier::external_body]
pub(crate) fn synonym_map_clone(
    m: &im::HashMap<String, SynonymRecord, std::collections::hash_map::RandomState>,
) -> (r: im::HashMap<String, SynonymRecord, std::collections::hash_map::RandomState>)
    ensures
        synonym_map_contents(r) == synonym_map_contents(*m),
{
    m.clone()
}

/// Relies on im::HashMap::new: the fresh map holds no mappings.
#[verifier::external_body]
pub(crate) fn alias_map_new() -> (m: im::HashMap<
    String,
    Ident,
    std::collections::hash_map::RandomState,
>)
    ensures
        alias_map_contents(m) == no_aliases(),
{
    im::HashMap::new()
}

/// Relies on im::HashMap::insert: maps the key to the new value and keeps
/// every other mapping; an existing entry for the key is overwritten.
#[verifier::external_body]
pub(crate) fn alias_map_insert(
    m: &mut im::HashMap<String, Ident, std::collections::hash_map::RandomState>,
    key: String,
    value: Ident,
)
    ensures
        alias_map_contents(*final(m)) == alias_map_contents(*old(m)).insert(key@, value@),
{
    m.insert(key, value);
}

/// Relies on im::HashMap::get: returns the value bound to the key, if any.
#[verifier::external_body]
pub(crate) fn alias_map_get<'a>(
    m: &'a im::HashMap<String, Ident, std::collections::hash_map::RandomState>,
    key: &str,
) -> (r: Option<&'a Ident>)
    ensures
        match r {
            Some(id) => alias_map_contents(*m).contains_key(key@) && id@ == alias_map_contents(
                *m,
            )[key@],
            None => !alias_map_contents(*m).contains_key(key@),
        },
{
    m.get(key)
}

/// Relies on im::HashMap::clone: the clone holds the same mappings and
/// shares structure with the original.
#[verifier::external_body]
pub(crate) fn alias_map_clone(
    m: &im::HashMap<String, Ident, std::collections::hash_map::RandomState>,
) -> (r: im::HashMap<String, Ident, std::collections::hash_map::RandomState>)
    ensures
        alias_map_contents(r) == alias_map_contents(*m),
{
    m.clone()
}

} // verus!
