use scope_items::{
    CompileError, ConstShadowingMode, Decl, Engines, Handler, Ident, Items, ProjectionKind, Span,
    StructDecl, StructField, TypeId, TypeInfo,
};

fn ident(name: &str) -> Ident {
    Ident::new(String::from(name), Span { start: 0, end: name.len() })
}

/// Registries with the integer type and a struct `Point { x: Int, y: Int }`.
fn point_world() -> (Engines, TypeId, TypeId) {
    let mut engines = Engines::new();
    let int_t = engines.add_type(TypeInfo::Integer);
    let point_decl = engines.add_struct(StructDecl {
        name: String::from("Point"),
        fields: vec![
            StructField { name: String::from("x"), type_id: int_t },
            StructField { name: String::from("y"), type_id: int_t },
        ],
    });
    let point_t = engines.add_type(TypeInfo::Struct { decl_id: point_decl });
    (engines, int_t, point_t)
}

fn scope_with(name: &str, decl: Decl) -> Items {
    let mut items = Items::default();
    let mut handler = Handler::new();
    items.insert_symbol(&mut handler, ident(name), decl, ConstShadowingMode::Sequential).unwrap();
    items
}

#[test]
fn scenario_d_struct_field_resolves() {
    let (engines, int_t, point_t) = point_world();
    let items = scope_with("p", Decl::Variable { type_id: point_t });
    let mut handler = Handler::new();
    let steps = [ProjectionKind::StructField { name: ident("x") }];
    let r = items.find_subfield_type(&mut handler, &engines, &ident("p"), &steps);
    assert_eq!(r, Ok((int_t, point_t)));
    assert_eq!(handler.error_count(), 0);
}

#[test]
fn scenario_e_field_not_found_lists_fields() {
    let (engines, _, point_t) = point_world();
    let items = scope_with("p", Decl::Variable { type_id: point_t });
    let mut handler = Handler::new();
    let steps = [ProjectionKind::StructField { name: ident("z") }];
    let r = items.find_subfield_type(&mut handler, &engines, &ident("p"), &steps);
    assert!(r.is_err());
    assert_eq!(handler.error_count(), 1);
    match &handler.errors()[0] {
        CompileError::FieldNotFound { field_name, struct_name, available_fields } => {
            assert_eq!(field_name.as_str(), "z");
            assert_eq!(struct_name.as_str(), "Point");
            assert_eq!(available_fields.as_str(), "x, y");
        },
        other => panic!("unexpected diagnostic: {:?}", other),
    }
}

#[test]
fn scenario_f_field_access_on_non_struct() {
    let mut engines = Engines::new();
    let int_t = engines.add_type(TypeInfo::Integer);
    let items = scope_with("n", Decl::Variable { type_id: int_t });
    let mut handler = Handler::new();
    let steps = [ProjectionKind::StructField { name: ident("x") }];
    let r = items.find_subfield_type(&mut handler, &engines, &ident("n"), &steps);
    assert!(r.is_err());
    assert_eq!(handler.error_count(), 1);
    match &handler.errors()[0] {
        CompileError::FieldAccessOnNonStruct { actually, .. } => {
            assert_eq!(actually.as_str(), "Int");
        },
        other => panic!("unexpected diagnostic: {:?}", other),
    }
}

#[test]
fn empty_projection_returns_base_type_twice() {
    let (engines, _, point_t) = point_world();
    let items = scope_with("p", Decl::Variable { type_id: point_t });
    let mut handler = Handler::new();
    let r = items.find_subfield_type(&mut handler, &engines, &ident("p"), &[]);
    assert_eq!(r, Ok((point_t, point_t)));
}

#[test]
fn projection_is_deterministic_across_calls() {
    let (engines, _, point_t) = point_world();
    let items = scope_with("p", Decl::Variable { type_id: point_t });
    let steps = [
        ProjectionKind::StructField { name: ident("y") },
    ];
    let mut h1 = Handler::new();
    let mut h2 = Handler::new();
    let r1 = items.find_subfield_type(&mut h1, &engines, &ident("p"), &steps);
    let r2 = items.find_subfield_type(&mut h2, &engines, &ident("p"), &steps);
    assert_eq!(r1, r2);
    assert_eq!(h1.error_count(), 0);
    assert_eq!(h2.error_count(), 0);
}

#[test]
fn first_failure_aborts_the_walk() {
    let mut engines = Engines::new();
    let int_t = engines.add_type(TypeInfo::Integer);
    let items = scope_with("n", Decl::Variable { type_id: int_t });
    let mut handler = Handler::new();
    // Both steps are bad; only the first is ever evaluated, so exactly
    // one diagnostic lands in the sink, and it is the first step's.
    let steps = [
        ProjectionKind::StructField { name: ident("x") },
        ProjectionKind::TupleField { index: 3, index_span: Span { start: 4, end: 5 } },
    ];
    let r = items.find_subfield_type(&mut handler, &engines, &ident("n"), &steps);
    assert!(r.is_err());
    assert_eq!(handler.error_count(), 1);
    assert!(matches!(&handler.errors()[0], CompileError::FieldAccessOnNonStruct { .. }));
}

#[test]
fn unknown_variable_reported() {
    let engines = Engines::new();
    let items = Items::default();
    let mut handler = Handler::new();
    let r = items.find_subfield_type(&mut handler, &engines, &ident("ghostly"), &[]);
    assert!(r.is_err());
    assert!(matches!(&handler.errors()[0], CompileError::UnknownVariable { name } if name.as_str() == "ghostly"));
}

#[test]
fn unresolved_type_reports_type_error() {
    let mut engines = Engines::new();
    let unknown_t = engines.add_type(TypeInfo::Unknown);
    let items = scope_with("u", Decl::Variable { type_id: unknown_t });
    let mut handler = Handler::new();
    let steps = [ProjectionKind::StructField { name: ident("x") }];
    let r = items.find_subfield_type(&mut handler, &engines, &ident("u"), &steps);
    assert!(r.is_err());
    assert!(matches!(&handler.errors()[0], CompileError::TypeError { .. }));
}

#[test]
fn base_without_usable_type_reports_type_error() {
    let engines = Engines::new();
    let items = scope_with("T", Decl::Trait);
    let mut handler = Handler::new();
    let r = items.find_subfield_type(&mut handler, &engines, &ident("T"), &[]);
    assert!(r.is_err());
    assert!(matches!(&handler.errors()[0], CompileError::TypeError { .. }));
}

#[test]
fn tuple_projection_in_and_out_of_bounds() {
    let mut engines = Engines::new();
    let int_t = engines.add_type(TypeInfo::Integer);
    let bool_t = engines.add_type(TypeInfo::Boolean);
    let pair_t = engines.add_type(TypeInfo::Tuple { elems: vec![int_t, bool_t] });
    let items = scope_with("t", Decl::Variable { type_id: pair_t });

    let mut handler = Handler::new();
    let steps = [ProjectionKind::TupleField { index: 1, index_span: Span { start: 2, end: 3 } }];
    let r = items.find_subfield_type(&mut handler, &engines, &ident("t"), &steps);
    assert_eq!(r, Ok((bool_t, pair_t)));

    let steps = [ProjectionKind::TupleField { index: 5, index_span: Span { start: 2, end: 3 } }];
    let r = items.find_subfield_type(&mut handler, &engines, &ident("t"), &steps);
    assert!(r.is_err());
    match &handler.errors()[0] {
        CompileError::TupleIndexOutOfBounds { index, count, .. } => {
            assert_eq!(*index, 5);
            assert_eq!(*count, 2);
        },
        other => panic!("unexpected diagnostic: {:?}", other),
    }
}

#[test]
fn not_a_tuple_carries_accumulated_name() {
    let mut engines = Engines::new();
    let int_t = engines.add_type(TypeInfo::Integer);
    let pair_t = engines.add_type(TypeInfo::Tuple { elems: vec![int_t, int_t] });
    let items = scope_with("t", Decl::Variable { type_id: pair_t });
    let mut handler = Handler::new();
    // The first hop lands on Int; the second tuple access fails there,
    // and the diagnostic names the path walked so far: "t" plus index 0.
    let steps = [
        ProjectionKind::TupleField { index: 0, index_span: Span { start: 2, end: 3 } },
        ProjectionKind::TupleField { index: 1, index_span: Span { start: 4, end: 5 } },
    ];
    let r = items.find_subfield_type(&mut handler, &engines, &ident("t"), &steps);
    assert!(r.is_err());
    match &handler.errors()[0] {
        CompileError::NotATuple { name, actually, .. } => {
            assert_eq!(name.as_str(), "t0");
            assert_eq!(actually.as_str(), "Int");
        },
        other => panic!("unexpected diagnostic: {:?}", other),
    }
}

#[test]
fn accumulated_name_renders_multi_digit_indices() {
    let mut engines = Engines::new();
    let int_t = engines.add_type(TypeInfo::Integer);
    let wide_t = engines.add_type(TypeInfo::Tuple { elems: vec![int_t; 13] });
    let items = scope_with("t", Decl::Variable { type_id: wide_t });
    let mut handler = Handler::new();
    let steps = [
        ProjectionKind::TupleField { index: 12, index_span: Span { start: 2, end: 4 } },
        ProjectionKind::TupleField { index: 0, index_span: Span { start: 5, end: 6 } },
    ];
    let r = items.find_subfield_type(&mut handler, &engines, &ident("t"), &steps);
    assert!(r.is_err());
    match &handler.errors()[0] {
        CompileError::NotATuple { name, .. } => assert_eq!(name.as_str(), "t12"),
        other => panic!("unexpected diagnostic: {:?}", other),
    }
}

#[test]
fn out_of_bounds_span_covers_base_through_index() {
    let mut engines = Engines::new();
    let int_t = engines.add_type(TypeInfo::Integer);
    let pair_t = engines.add_type(TypeInfo::Tuple { elems: vec![int_t, int_t] });
    let items = scope_with("t", Decl::Variable { type_id: pair_t });
    let mut handler = Handler::new();
    let steps = [ProjectionKind::TupleField { index: 9, index_span: Span { start: 4, end: 5 } }];
    let r = items.find_subfield_type(&mut handler, &engines, &ident("t"), &steps);
    assert!(r.is_err());
    match &handler.errors()[0] {
        CompileError::TupleIndexOutOfBounds { span, .. } => {
            assert_eq!(*span, Span { start: 0, end: 5 });
        },
        other => panic!("unexpected diagnostic: {:?}", other),
    }
}

#[test]
fn array_projection_takes_element_type_without_bounds_checks() {
    let mut engines = Engines::new();
    let bool_t = engines.add_type(TypeInfo::Boolean);
    let arr_t = engines.add_type(TypeInfo::Array { elem: bool_t });
    let items = scope_with("a", Decl::Variable { type_id: arr_t });
    let mut handler = Handler::new();
    // Two hops through the (self-elemental) array are both accepted: no
    // index validation happens at this layer.
    let steps = [
        ProjectionKind::ArrayIndex { index_span: Span { start: 1, end: 2 } },
    ];
    let r = items.find_subfield_type(&mut handler, &engines, &ident("a"), &steps);
    assert_eq!(r, Ok((bool_t, arr_t)));
    assert_eq!(handler.error_count(), 0);
}

#[test]
fn not_indexable_reported() {
    let mut engines = Engines::new();
    let bool_t = engines.add_type(TypeInfo::Boolean);
    let items = scope_with("b", Decl::Variable { type_id: bool_t });
    let mut handler = Handler::new();
    let steps = [ProjectionKind::ArrayIndex { index_span: Span { start: 1, end: 2 } }];
    let r = items.find_subfield_type(&mut handler, &engines, &ident("b"), &steps);
    assert!(r.is_err());
    match &handler.errors()[0] {
        CompileError::NotIndexable { name, actually, .. } => {
            assert_eq!(name.as_str(), "b");
            assert_eq!(actually.as_str(), "Bool");
        },
        other => panic!("unexpected diagnostic: {:?}", other),
    }
}

#[test]
fn nested_struct_chain_tracks_container() {
    let mut engines = Engines::new();
    let int_t = engines.add_type(TypeInfo::Integer);
    let inner_decl = engines.add_struct(StructDecl {
        name: String::from("Inner"),
        fields: vec![StructField { name: String::from("value"), type_id: int_t }],
    });
    let inner_t = engines.add_type(TypeInfo::Struct { decl_id: inner_decl });
    let outer_decl = engines.add_struct(StructDecl {
        name: String::from("Outer"),
        fields: vec![StructField { name: String::from("inner"), type_id: inner_t }],
    });
    let outer_t = engines.add_type(TypeInfo::Struct { decl_id: outer_decl });
    let items = scope_with("o", Decl::Variable { type_id: outer_t });
    let mut handler = Handler::new();
    let steps = [
        ProjectionKind::StructField { name: ident("inner") },
        ProjectionKind::StructField { name: ident("value") },
    ];
    let r = items.find_subfield_type(&mut handler, &engines, &ident("o"), &steps);
    assert_eq!(r, Ok((int_t, inner_t)));
}
