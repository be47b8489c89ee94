use scope_items::{
    CompileError, ConstShadowingMode, Decl, Engines, GlobImport, Handler, Ident, Items, Span,
    SynonymRecord, TypeId, TypeInfo,
};

fn ident(name: &str) -> Ident {
    Ident::new(String::from(name), Span { start: 0, end: name.len() })
}

fn int_type() -> (Engines, TypeId) {
    let mut engines = Engines::new();
    let t = engines.add_type(TypeInfo::Integer);
    (engines, t)
}

#[test]
fn uniqueness_last_insert_wins() {
    let (_, t) = int_type();
    let mut items = Items::default();
    let mut handler = Handler::new();
    items
        .insert_symbol(&mut handler, ident("x"), Decl::Variable { type_id: t }, ConstShadowingMode::Sequential)
        .unwrap();
    items
        .insert_symbol(&mut handler, ident("x"), Decl::Other, ConstShadowingMode::Sequential)
        .unwrap();
    let names = items.get_all_declared_symbols();
    assert_eq!(names, vec![String::from("x")]);
    let bound = items.check_symbol(&ident("x")).unwrap();
    assert!(matches!(bound, Decl::Other));
}

#[test]
fn scenario_a_constant_shadows_variable() {
    let (_, t) = int_type();
    let mut items = Items::default();
    let mut handler = Handler::new();
    items
        .insert_symbol(&mut handler, ident("x"), Decl::Variable { type_id: t }, ConstShadowingMode::ItemStyle)
        .unwrap();
    items
        .insert_symbol(&mut handler, ident("x"), Decl::Constant { type_id: t }, ConstShadowingMode::ItemStyle)
        .unwrap();
    assert_eq!(handler.error_count(), 1);
    assert!(matches!(&handler.errors()[0], CompileError::ConstantShadowsVariable { name } if name.as_str() == "x"));
    let bound = items.check_symbol(&ident("x")).unwrap();
    assert!(matches!(bound, Decl::Constant { .. }));
}

#[test]
fn scenario_b_multiple_definitions_of_constant() {
    let (_, t) = int_type();
    let mut items = Items::default();
    let mut handler = Handler::new();
    items
        .insert_symbol(&mut handler, ident("PI"), Decl::Constant { type_id: t }, ConstShadowingMode::ItemStyle)
        .unwrap();
    items
        .insert_symbol(&mut handler, ident("PI"), Decl::Constant { type_id: t }, ConstShadowingMode::ItemStyle)
        .unwrap();
    assert_eq!(handler.error_count(), 1);
    assert!(matches!(&handler.errors()[0], CompileError::MultipleDefinitionsOfConstant { name } if name.as_str() == "PI"));
}

#[test]
fn scenario_c_constant_shadows_constant_sequentially() {
    let (_, t) = int_type();
    let mut items = Items::default();
    let mut handler = Handler::new();
    items
        .insert_symbol(&mut handler, ident("x"), Decl::Constant { type_id: t }, ConstShadowingMode::Sequential)
        .unwrap();
    items
        .insert_symbol(&mut handler, ident("x"), Decl::Constant { type_id: t }, ConstShadowingMode::Sequential)
        .unwrap();
    assert_eq!(handler.error_count(), 1);
    assert!(matches!(&handler.errors()[0], CompileError::ConstantShadowsConstant { name } if name.as_str() == "x"));
}

#[test]
fn variable_shadows_constant() {
    let (_, t) = int_type();
    let mut items = Items::default();
    let mut handler = Handler::new();
    items
        .insert_symbol(&mut handler, ident("c"), Decl::Constant { type_id: t }, ConstShadowingMode::Sequential)
        .unwrap();
    items
        .insert_symbol(&mut handler, ident("c"), Decl::Variable { type_id: t }, ConstShadowingMode::Sequential)
        .unwrap();
    assert_eq!(handler.error_count(), 1);
    assert!(matches!(&handler.errors()[0], CompileError::VariableShadowsConstant { name } if name.as_str() == "c"));
}

#[test]
fn shadow_matrix_type_like_rows() {
    let type_like = [Decl::Struct, Decl::Enum, Decl::TypeAlias, Decl::Trait, Decl::Abi];
    for prior in type_like {
        for new in type_like {
            let mut items = Items::default();
            let mut handler = Handler::new();
            items.insert_symbol(&mut handler, ident("T"), prior, ConstShadowingMode::ItemStyle).unwrap();
            items.insert_symbol(&mut handler, ident("T"), new, ConstShadowingMode::ItemStyle).unwrap();
            assert_eq!(handler.error_count(), 1);
            assert!(matches!(&handler.errors()[0], CompileError::MultipleDefinitionsOfName { name } if name.as_str() == "T"));
        }
    }
}

#[test]
fn shadow_matrix_generic_row_and_unlisted_pairs() {
    let (_, t) = int_type();
    let mut items = Items::default();
    let mut handler = Handler::new();
    items
        .insert_symbol(&mut handler, ident("G"), Decl::GenericTypeParameter, ConstShadowingMode::Sequential)
        .unwrap();
    items
        .insert_symbol(&mut handler, ident("G"), Decl::GenericTypeParameter, ConstShadowingMode::Sequential)
        .unwrap();
    assert_eq!(handler.error_count(), 1);
    assert!(matches!(&handler.errors()[0], CompileError::GenericShadowsGeneric { name } if name.as_str() == "G"));

    // Unlisted combinations stay silent: variable over variable, other
    // over constant, struct over variable, and anything over `Other`.
    let silent = [
        (Decl::Variable { type_id: t }, Decl::Variable { type_id: t }),
        (Decl::Constant { type_id: t }, Decl::Other),
        (Decl::Variable { type_id: t }, Decl::Struct),
        (Decl::Other, Decl::Other),
        (Decl::Struct, Decl::GenericTypeParameter),
    ];
    for (prior, new) in silent {
        let mut items = Items::default();
        let mut handler = Handler::new();
        items.insert_symbol(&mut handler, ident("q"), prior, ConstShadowingMode::ItemStyle).unwrap();
        items.insert_symbol(&mut handler, ident("q"), new, ConstShadowingMode::ItemStyle).unwrap();
        assert_eq!(handler.error_count(), 0);
    }
}

#[test]
fn explicit_import_triggers_shadowing_but_glob_does_not() {
    let (_, t) = int_type();
    for (glob, expected_errors) in [(GlobImport::No, 1), (GlobImport::Yes, 0)] {
        let mut items = Items::default();
        let mut handler = Handler::new();
        items.insert_use_synonym(
            ident("x"),
            SynonymRecord {
                path: vec![ident("std"), ident("consts"), ident("x")],
                glob,
                decl: Decl::Constant { type_id: t },
                reexport: false,
            },
        );
        items
            .insert_symbol(&mut handler, ident("x"), Decl::Variable { type_id: t }, ConstShadowingMode::Sequential)
            .unwrap();
        assert_eq!(handler.error_count(), expected_errors);
        if expected_errors == 1 {
            assert!(matches!(&handler.errors()[0], CompileError::VariableShadowsConstant { name } if name.as_str() == "x"));
        }
    }
}

#[test]
fn prior_declaration_and_prior_import_each_report() {
    let (_, t) = int_type();
    let mut items = Items::default();
    let mut handler = Handler::new();
    items.insert_use_synonym(
        ident("x"),
        SynonymRecord {
            path: vec![ident("dep"), ident("x")],
            glob: GlobImport::No,
            decl: Decl::Constant { type_id: t },
            reexport: true,
        },
    );
    items
        .insert_symbol(&mut handler, ident("x"), Decl::Constant { type_id: t }, ConstShadowingMode::Sequential)
        .unwrap();
    assert_eq!(handler.error_count(), 1);
    items
        .insert_symbol(&mut handler, ident("x"), Decl::Variable { type_id: t }, ConstShadowingMode::Sequential)
        .unwrap();
    // The second insert sees both the prior declaration and the explicit
    // import, and reports once for each.
    assert_eq!(handler.error_count(), 3);
    assert!(matches!(&handler.errors()[1], CompileError::VariableShadowsConstant { .. }));
    assert!(matches!(&handler.errors()[2], CompileError::VariableShadowsConstant { .. }));
}

#[test]
fn check_symbol_not_found() {
    let items = Items::default();
    let err = items.check_symbol(&ident("missing")).unwrap_err();
    assert!(matches!(err, CompileError::SymbolNotFound { name } if name.as_str() == "missing"));
}

#[test]
fn declared_symbols_come_in_sorted_order() {
    let (_, t) = int_type();
    let mut items = Items::default();
    let mut handler = Handler::new();
    for name in ["delta", "alpha", "charlie", "bravo"] {
        items
            .insert_symbol(&mut handler, ident(name), Decl::Variable { type_id: t }, ConstShadowingMode::Sequential)
            .unwrap();
    }
    let names = items.get_all_declared_symbols();
    assert_eq!(
        names,
        vec![
            String::from("alpha"),
            String::from("bravo"),
            String::from("charlie"),
            String::from("delta"),
        ]
    );
}

#[test]
fn cloned_scope_is_independent() {
    let (_, t) = int_type();
    let mut parent = Items::default();
    let mut handler = Handler::new();
    parent
        .insert_symbol(&mut handler, ident("x"), Decl::Variable { type_id: t }, ConstShadowingMode::Sequential)
        .unwrap();
    let mut child = parent.clone();
    child
        .insert_symbol(&mut handler, ident("y"), Decl::Constant { type_id: t }, ConstShadowingMode::Sequential)
        .unwrap();
    assert!(child.check_symbol(&ident("x")).is_ok());
    assert!(child.check_symbol(&ident("y")).is_ok());
    assert!(parent.check_symbol(&ident("x")).is_ok());
    assert!(parent.check_symbol(&ident("y")).is_err());
}

#[test]
fn aliases_round_trip() {
    let mut items = Items::default();
    items.insert_use_alias(String::from("baz"), ident("bar"));
    let canonical = items.get_use_alias("baz").unwrap();
    assert_eq!(canonical.as_str(), "bar");
    assert!(items.get_use_alias("bar").is_none());
}

#[test]
fn synonyms_round_trip() {
    let (_, t) = int_type();
    let mut items = Items::default();
    items.insert_use_synonym(
        ident("Baz"),
        SynonymRecord {
            path: vec![ident("foo"), ident("bar"), ident("Baz")],
            glob: GlobImport::No,
            decl: Decl::Constant { type_id: t },
            reexport: false,
        },
    );
    let record = items.get_use_synonym(&ident("Baz")).unwrap();
    assert_eq!(record.path.len(), 3);
    assert_eq!(record.path[1].as_str(), "bar");
    assert!(matches!(record.glob, GlobImport::No));
    assert!(!record.reexport);
    assert!(items.get_use_synonym(&ident("Qux")).is_none());
}
