use scope_items::{
    Decl, Engines, Items, Span, TraitImplEntry, TraitItem, TypeInfo,
};

fn span(start: usize, end: usize) -> Span {
    Span { start, end }
}

#[test]
fn items_and_methods_for_type() {
    let mut engines = Engines::new();
    let int_t = engines.add_type(TypeInfo::Integer);
    let bool_t = engines.add_type(TypeInfo::Boolean);
    let mut items = Items::default();
    items.insert_trait_impl(TraitImplEntry {
        trait_name: String::from("Numeric"),
        type_id: int_t,
        impl_span: span(1, 5),
        items: vec![TraitItem::Fn { decl_id: 7 }, TraitItem::Constant { decl_id: 8 }],
    });
    items.insert_trait_impl(TraitImplEntry {
        trait_name: String::from("Show"),
        type_id: int_t,
        impl_span: span(6, 9),
        items: vec![TraitItem::Fn { decl_id: 11 }],
    });
    items.insert_trait_impl(TraitImplEntry {
        trait_name: String::from("Show"),
        type_id: bool_t,
        impl_span: span(10, 12),
        items: vec![TraitItem::Fn { decl_id: 21 }],
    });

    let found = items.get_items_for_type(&engines, int_t);
    assert_eq!(
        found,
        vec![
            TraitItem::Fn { decl_id: 7 },
            TraitItem::Constant { decl_id: 8 },
            TraitItem::Fn { decl_id: 11 },
        ]
    );
    // Constants are filtered out of the method listing.
    assert_eq!(items.get_methods_for_type(&engines, int_t), vec![7, 11]);
    assert_eq!(items.get_methods_for_type(&engines, bool_t), vec![21]);
}

#[test]
fn impl_spans_by_type_trait_and_decl() {
    let mut engines = Engines::new();
    let int_t = engines.add_type(TypeInfo::Integer);
    let bool_t = engines.add_type(TypeInfo::Boolean);
    let mut items = Items::default();
    items.insert_trait_impl(TraitImplEntry {
        trait_name: String::from("Show"),
        type_id: int_t,
        impl_span: span(1, 2),
        items: vec![],
    });
    items.insert_trait_impl(TraitImplEntry {
        trait_name: String::from("Show"),
        type_id: bool_t,
        impl_span: span(3, 4),
        items: vec![],
    });

    assert_eq!(items.get_impl_spans_for_type(&engines, &int_t), vec![span(1, 2)]);
    assert_eq!(
        items.get_impl_spans_for_trait_name(&String::from("Show")),
        vec![span(1, 2), span(3, 4)]
    );
    assert_eq!(items.get_impl_spans_for_trait_name(&String::from("Eq")), vec![]);

    // A declaration with a use-site type reaches that type's spans; one
    // without a use-site type has none.
    assert_eq!(
        items.get_impl_spans_for_decl(&engines, &Decl::Variable { type_id: bool_t }),
        vec![span(3, 4)]
    );
    assert_eq!(items.get_impl_spans_for_decl(&engines, &Decl::Trait), vec![]);
}

#[test]
fn insert_for_type_copies_entries_for_that_type_only() {
    let mut engines = Engines::new();
    let int_t = engines.add_type(TypeInfo::Integer);
    let bool_t = engines.add_type(TypeInfo::Boolean);
    let mut items = Items::default();
    items.insert_trait_impl(TraitImplEntry {
        trait_name: String::from("Show"),
        type_id: int_t,
        impl_span: span(1, 2),
        items: vec![TraitItem::Fn { decl_id: 5 }],
    });
    items.insert_trait_impl(TraitImplEntry {
        trait_name: String::from("Show"),
        type_id: bool_t,
        impl_span: span(3, 4),
        items: vec![TraitItem::Fn { decl_id: 6 }],
    });

    items.insert_trait_implementation_for_type(&engines, int_t);

    assert_eq!(
        items.get_items_for_type(&engines, int_t),
        vec![TraitItem::Fn { decl_id: 5 }, TraitItem::Fn { decl_id: 5 }]
    );
    assert_eq!(items.get_items_for_type(&engines, bool_t), vec![TraitItem::Fn { decl_id: 6 }]);
}
