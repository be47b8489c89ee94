//! The trait-implementation index: which trait items are available on a
//! type handle, and where the impls were written.
//!
//! This core only queries the index and copies entries between types; it
//! never decides trait applicability.  Two handles match an entry exactly
//! when they are the same handle.

use vstd::prelude::*;

use crate::span::Span;
use crate::types::{Engines, TypeId};

verus! {

/// One item of a trait impl: a function or a constant, by declaration
/// handle.
#[derive(Clone, Copy, Debug, PartialEq, Eq, Structural)]
pub enum TraitItem {
    Fn { decl_id: usize },
    Constant { decl_id: usize },
}

/// The mathematical value of a [`TraitImplEntry`].
pub ghost struct TraitImplEntryV {
    pub trait_name: Seq<char>,
    pub type_id: TypeId,
    pub impl_span: Span,
    pub items: Seq<TraitItem>,
}

/// One recorded trait impl: the trait's name, the implementing type, the
/// impl site, and the items the impl provides.
#[derive(Debug)]
pub struct TraitImplEntry {
    pub trait_name: String,
    pub type_id: TypeId,
    pub impl_span: Span,
    pub items: Vec<TraitItem>,
}

impl View for TraitImplEntry {
    type V = TraitImplEntryV;

    open spec fn view(&self) -> TraitImplEntryV {
        TraitImplEntryV {
            trait_name: self.trait_name@,
            type_id: self.type_id,
            impl_span: self.impl_span,
            items: self.items@,
        }
    }
}

impl Clone for TraitImplEntry {
    fn clone(&self) -> (r: Self)
        ensures
            r@ == self@,
    {
        let mut items: Vec<TraitItem> = Vec::new();
        let mut j: usize = 0;
        while j < self.items.len()
            invariant
                j <= self.items.len(),
                items@ == self.items@.take(j as int),
            decreases self.items.len() - j,
        {
            items.push(self.items[j]);
            proof {
                assert(self.items@.take(j as int).push(self.items@[j as int]) =~= self.items@.take(
                    j as int + 1,
                ));
            }
            j += 1;
        }
        proof {
            assert(self.items@.take(self.items@.len() as int) =~= self.items@);
        }
        TraitImplEntry {
            trait_name: self.trait_name.clone(),
            type_id: self.type_id,
            impl_span: self.impl_span,
            items,
        }
    }
}

/// The entries among `entries` recorded for type `t`, in order.
pub open spec fn entries_for_type(entries: Seq<TraitImplEntryV>, t: TypeId) -> Seq<
    TraitImplEntryV,
>
    decreases entries.len(),
{
    if entries.len() == 0 {
        Seq::empty()
    } else {
        entries_for_type(entries.drop_last(), t) + if entries.last().type_id == t {
            seq![entries.last()]
        } else {
            Seq::empty()
        }
    }
}

/// All items the entries for type `t` provide, in entry order, items in
/// impl order.
pub open spec fn items_for_type_spec(entries: Seq<TraitImplEntryV>, t: TypeId) -> Seq<TraitItem>
    decreases entries.len(),
{
    if entries.len() == 0 {
        Seq::empty()
    } else {
        items_for_type_spec(entries.drop_last(), t) + if entries.last().type_id == t {
            entries.last().items
        } else {
            Seq::empty()
        }
    }
}

/// The function items among `items`, by declaration handle, in order;
/// constants drop out.
pub open spec fn fn_decls(items: Seq<TraitItem>) -> Seq<usize>
    decreases items.len(),
{
    if items.len() == 0 {
        Seq::empty()
    } else {
        fn_decls(items.drop_last()) + (match items.last() {
            TraitItem::Fn { decl_id } => seq![decl_id],
            TraitItem::Constant { .. } => Seq::empty(),
        })
    }
}

/// The impl sites of the entries for type `t`, in entry order.
pub open spec fn impl_spans_for_type_spec(entries: Seq<TraitImplEntryV>, t: TypeId) -> Seq<Span>
    decreases entries.len(),
{
    if entries.len() == 0 {
        Seq::empty()
    } else {
        impl_spans_for_type_spec(entries.drop_last(), t) + if entries.last().type_id == t {
            seq![entries.last().impl_span]
        } else {
            Seq::empty()
        }
    }
}

/// The impl sites of the entries for the trait named `name`, in entry
/// order.
pub open spec fn impl_spans_for_trait_spec(entries: Seq<TraitImplEntryV>, name: Seq<char>) -> Seq<
    Span,
>
    decreases entries.len(),
{
    if entries.len() == 0 {
        Seq::empty()
    } else {
        impl_spans_for_trait_spec(entries.drop_last(), name) + if entries.last().trait_name
            == name {
            seq![entries.last().impl_span]
        } else {
            Seq::empty()
        }
    }
}

/// The per-scope trait-implementation index.  Its view is the sequence of
/// recorded entries, oldest first.
#[derive(Debug)]
pub struct TraitMap {
    entries: Vec<TraitImplEntry>,
}

impl View for TraitMap {
    type V = Seq<TraitImplEntryV>;

    closed spec fn view(&self) -> Seq<TraitImplEntryV> {
        self.entries@.map_values(|e: TraitImplEntry| e@)
    }
}

impl TraitMap {
    /// An empty index.
    pub fn new() -> (r: TraitMap)
        ensures
            r@ == Seq::<TraitImplEntryV>::empty(),
    {
        let r = TraitMap { entries: Vec::new() };
        proof {
            assert(r@ =~= Seq::<TraitImplEntryV>::empty());
        }
        r
    }

    /// Record one trait impl.
    pub fn insert_impl(&mut self, entry: TraitImplEntry)
        ensures
            final(self)@ == old(self)@.push(entry@),
    {
        let ghost before = self.entries@;
        self.entries.push(entry);
        proof {
            assert(self.entries@.map_values(|e: TraitImplEntry| e@) =~= before.map_values(
                |e: TraitImplEntry| e@,
            ).push(self.entries@.last()@));
        }
    }

    /// Copy, under `type_id`, every entry already recorded for `type_id`.
    /// Entries for other types are untouched.  (Whether an entry applies
    /// to a handle is exactly handle equality here.)
    pub fn insert_for_type(&mut self, engines: &Engines, type_id: TypeId)
        ensures
            final(self)@ == old(self)@ + entries_for_type(old(self)@, type_id),
    {
        let n = self.entries.len();
        let mut i: usize = 0;
        while i < n
            invariant
                i <= n,
                n <= self.entries.len(),
                self.entries@.map_values(|e: TraitImplEntry| e@).take(n as int) == old(
                    self,
                )@.take(n as int),
                old(self)@.len() == n,
                self.entries@.map_values(|e: TraitImplEntry| e@) == old(self)@ + entries_for_type(
                    old(self)@.take(i as int),
                    type_id,
                ),
            decreases n - i,
        {
            let ghost views = self.entries@.map_values(|e: TraitImplEntry| e@);
            proof {
                assert(views[i as int] == views.take(n as int)[i as int]);
                assert(old(self)@.take(i as int + 1).drop_last() =~= old(self)@.take(i as int));
                assert(old(self)@.take(i as int + 1).last() == old(self)@[i as int]);
            }
            if self.entries[i].type_id == type_id {
                let e = self.entries[i].clone();
                let ghost before = self.entries@;
                self.entries.push(e);
                proof {
                    assert(self.entries@.map_values(|x: TraitImplEntry| x@) =~= before.map_values(
                        |x: TraitImplEntry| x@,
                    ).push(self.entries@.last()@));
                    assert(self.entries@.map_values(|x: TraitImplEntry| x@).take(n as int)
                        =~= before.map_values(|x: TraitImplEntry| x@).take(n as int));
                    assert(views + seq![old(self)@[i as int]] =~= self.entries@.map_values(
                        |x: TraitImplEntry| x@,
                    ));
                    assert(old(self)@ + entries_for_type(old(self)@.take(i as int + 1), type_id)
                        =~= views + seq![old(self)@[i as int]]);
                }
            } else {
                proof {
                    assert(old(self)@ + entries_for_type(old(self)@.take(i as int + 1), type_id)
                        =~= views);
                }
            }
            i += 1;
        }
        proof {
            assert(old(self)@.take(n as int) =~= old(self)@);
        }
    }

    /// All trait items available on `type_id`, in the order their entries
    /// were recorded.
    pub fn get_items_for_type(&self, engines: &Engines, type_id: TypeId) -> (r: Vec<TraitItem>)
        ensures
            r@ == items_for_type_spec(self@, type_id),
    {
        let mut r: Vec<TraitItem> = Vec::new();
        let mut i: usize = 0;
        while i < self.entries.len()
            invariant
                i <= self.entries.len(),
                r@ == items_for_type_spec(self@.take(i as int), type_id),
            decreases self.entries.len() - i,
        {
            proof {
                assert(self@.take(i as int + 1).drop_last() =~= self@.take(i as int));
                assert(self@.take(i as int + 1).last() == self@[i as int]);
            }
            if self.entries[i].type_id == type_id {
                let items = &self.entries[i].items;
                let ghost rv = r@;
                let mut j: usize = 0;
                while j < items.len()
                    invariant
                        j <= items.len(),
                        items@ == self@[i as int].items,
                        r@ == rv + items@.take(j as int),
                    decreases items.len() - j,
                {
                    r.push(items[j]);
                    proof {
                        assert(items@.take(j as int).push(items@[j as int]) =~= items@.take(
                            j as int + 1,
                        ));
                        assert(rv + items@.take(j as int + 1) =~= (rv + items@.take(j as int)).push(
                            items@[j as int],
                        ));
                    }
                    j += 1;
                }
                proof {
                    assert(items@.take(items@.len() as int) =~= items@);
                }
            } else {
                proof {
                    assert(r@ + Seq::<TraitItem>::empty() =~= r@);
                }
            }
            i += 1;
        }
        proof {
            assert(self@.take(self@.len() as int) =~= self@);
        }
        r
    }

    /// The impl sites recorded for `type_id`, in recording order.
    pub fn get_impl_spans_for_type(&self, engines: &Engines, type_id: &TypeId) -> (r: Vec<Span>)
        ensures
            r@ == impl_spans_for_type_spec(self@, *type_id),
    {
        let mut r: Vec<Span> = Vec::new();
        let mut i: usize = 0;
        while i < self.entries.len()
            invariant
                i <= self.entries.len(),
                r@ == impl_spans_for_type_spec(self@.take(i as int), *type_id),
            decreases self.entries.len() - i,
        {
            proof {
                assert(self@.take(i as int + 1).drop_last() =~= self@.take(i as int));
                assert(self@.take(i as int + 1).last() == self@[i as int]);
            }
            if self.entries[i].type_id == *type_id {
                r.push(self.entries[i].impl_span);
                proof {
                    assert(impl_spans_for_type_spec(self@.take(i as int), *type_id) + seq![
                        self@[i as int].impl_span,
                    ] =~= impl_spans_for_type_spec(self@.take(i as int), *type_id).push(
                        self@[i as int].impl_span,
                    ));
                }
            } else {
                proof {
                    assert(r@ + Seq::<Span>::empty() =~= r@);
                }
            }
            i += 1;
        }
        proof {
            assert(self@.take(self@.len() as int) =~= self@);
        }
        r
    }

    /// The impl sites recorded for the trait named `trait_name`, in
    /// recording order.
    pub fn get_impl_spans_for_trait_name(&self, trait_name: &String) -> (r: Vec<Span>)
        ensures
            r@ == impl_spans_for_trait_spec(self@, trait_name@),
    {
        let mut r: Vec<Span> = Vec::new();
        let mut i: usize = 0;
        while i < self.entries.len()
            invariant
                i <= self.entries.len(),
                r@ == impl_spans_for_trait_spec(self@.take(i as int), trait_name@),
            decreases self.entries.len() - i,
        {
            proof {
                assert(self@.take(i as int + 1).drop_last() =~= self@.take(i as int));
                assert(self@.take(i as int + 1).last() == self@[i as int]);
            }
            if self.entries[i].trait_name == *trait_name {
                r.push(self.entries[i].impl_span);
                proof {
                    assert(impl_spans_for_trait_spec(self@.take(i as int), trait_name@) + seq![
                        self@[i as int].impl_span,
                    ] =~= impl_spans_for_trait_spec(self@.take(i as int), trait_name@).push(
                        self@[i as int].impl_span,
                    ));
                }
            } else {
                proof {
                    assert(r@ + Seq::<Span>::empty() =~= r@);
                }
            }
            i += 1;
        }
        proof {
            assert(self@.take(self@.len() as int) =~= self@);
        }
        r
    }
}

impl Clone for TraitMap {
    fn clone(&self) -> (r: Self)
        ensures
            r@ == self@,
    {
        let mut entries: Vec<TraitImplEntry> = Vec::new();
        let mut i: usize = 0;
        while i < self.entries.len()
            invariant
                i <= self.entries.len(),
                entries@.map_values(|e: TraitImplEntry| e@) == self@.take(i as int),
            decreases self.entries.len() - i,
        {
            let ghost before = entries@;
            entries.push(self.entries[i].clone());
            proof {
                assert(entries@.map_values(|e: TraitImplEntry| e@) =~= before.map_values(
                    |e: TraitImplEntry| e@,
                ).push(entries@.last()@));
                assert(self@.take(i as int).push(self@[i as int]) =~= self@.take(i as int + 1));
            }
            i += 1;
        }
        proof {
            assert(self@.take(self@.len() as int) =~= self@);
        }
        TraitMap { entries }
    }
}

} // verus!
