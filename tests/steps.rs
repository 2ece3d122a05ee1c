use hir_query::{
    answer_fits, complete_neighbors, complete_property, edge_declared, is_subtype,
    property_answer_fits, stability_field, start_neighbors, start_property, type_declared, Adapter, BodyId, CompilerConfig, ConstStabilityRecord, DefId,
    EdgeName, EdgeStep, ExprFacts, ExprKind, HirId, ItemFacts, ItemId, ItemKind, Property,
    PropertyStep, SessionAnswer, SessionQuery, StabilityField, StabilityLevel, StabilityRecord,
    StableSince, StmtFacts, StmtKind, TypeName, Value, Vertex,
};

fn hir(owner: u32, local_id: u32) -> HirId {
    HirId { owner, local_id }
}

fn unstable() -> StabilityLevel {
    StabilityLevel::Unstable {
        reason: Some("still in design".to_string()),
        issue: Some(12345),
        is_soft: true,
        implied_by: Some("const_feature".to_string()),
    }
}

fn stable(since: StableSince) -> StabilityLevel {
    StabilityLevel::Stable { since, allowed_through_unstable_modules: true }
}

#[test]
fn identity_round_trip_through_steps() {
    let adapter = Adapter::new();
    let main = ItemId { owner_id: 3 };
    let body = BodyId { hir_id: hir(3, 20) };

    let roots = adapter.resolve_starting_vertices("Crate");
    assert_eq!(roots, vec![Vertex::Crate]);

    let edge = adapter.plan_edge("Crate", "item");
    assert_eq!(start_neighbors(edge, &Vertex::Crate), EdgeStep::Ask(SessionQuery::Items));
    let items = complete_neighbors(
        &SessionQuery::Items,
        SessionAnswer::Items(vec![
            ItemFacts { id: ItemId { owner_id: 2 }, kind: ItemKind::Other },
            ItemFacts { id: main, kind: ItemKind::Fn(body) },
        ]),
    );
    assert_eq!(items, vec![Vertex::Item(ItemId { owner_id: 2 }), Vertex::Fn(main)]);
    assert_eq!(adapter.resolve_coercion(&items[1], "Fn"), true);
    assert_eq!(adapter.resolve_coercion(&items[0], "Fn"), false);

    let edge = adapter.plan_edge("Fn", "body");
    let step = start_neighbors(edge, &items[1]);
    assert_eq!(step, EdgeStep::Ask(SessionQuery::Item(main)));
    let bodies = complete_neighbors(
        &SessionQuery::Item(main),
        SessionAnswer::Item(ItemFacts { id: main, kind: ItemKind::Fn(body) }),
    );
    assert_eq!(bodies, vec![Vertex::FnBody(body)]);

    let edge = adapter.plan_edge("FnBody", "value");
    assert_eq!(start_neighbors(edge, &bodies[0]), EdgeStep::Ask(SessionQuery::BodyValue(body)));
    let value = complete_neighbors(
        &SessionQuery::BodyValue(body),
        SessionAnswer::Expr(ExprFacts { id: hir(3, 4), kind: ExprKind::Other }),
    );
    assert_eq!(value, vec![Vertex::Expr(hir(3, 4))]);

    let edge = adapter.plan_edge("Expr", "type");
    assert_eq!(start_neighbors(edge, &value[0]), EdgeStep::Known(Vertex::Ty(hir(3, 4))));

    let p = adapter.plan_property("Ty", "as_string");
    assert_eq!(p, Property::TyAsString);
    let step = start_property(p, &Vertex::Ty(hir(3, 4)));
    assert_eq!(step, PropertyStep::Ask(SessionQuery::NodeType(hir(3, 4))));
    assert_eq!(
        complete_property(p, SessionAnswer::Text("i32".to_string())),
        Value::String("i32".to_string())
    );
}

#[test]
fn block_statements_are_classified_in_order() {
    let adapter = Adapter::new();
    let block = Vertex::Block(hir(3, 20));
    let edge = adapter.plan_edge("Block", "statements");
    assert_eq!(edge, EdgeName::Statements);
    let step = start_neighbors(edge, &block);
    assert_eq!(step, EdgeStep::Ask(SessionQuery::BlockStatements(hir(3, 20))));
    let stmts = complete_neighbors(
        &SessionQuery::BlockStatements(hir(3, 20)),
        SessionAnswer::Statements(Some(vec![
            StmtFacts { id: hir(3, 1), kind: StmtKind::Local(None) },
            StmtFacts { id: hir(3, 5), kind: StmtKind::Other },
        ])),
    );
    assert_eq!(stmts, vec![Vertex::LocalStatement(hir(3, 1)), Vertex::Statement(hir(3, 5))]);
}

#[test]
fn empty_block_has_no_statements() {
    let stmts = complete_neighbors(
        &SessionQuery::BlockStatements(hir(3, 20)),
        SessionAnswer::Statements(Some(vec![])),
    );
    assert_eq!(stmts, vec![]);
}

#[test]
fn uninitialized_binding_has_no_init() {
    let adapter = Adapter::new();
    let edge = adapter.plan_edge("LocalStatement", "init");
    let step = start_neighbors(edge, &Vertex::LocalStatement(hir(3, 1)));
    assert_eq!(step, EdgeStep::Ask(SessionQuery::Stmt(hir(3, 1))));
    let none = complete_neighbors(
        &SessionQuery::Stmt(hir(3, 1)),
        SessionAnswer::Stmt(Some(StmtFacts { id: hir(3, 1), kind: StmtKind::Local(None) })),
    );
    assert_eq!(none, vec![]);
    let some = complete_neighbors(
        &SessionQuery::Stmt(hir(3, 1)),
        SessionAnswer::Stmt(Some(StmtFacts {
            id: hir(3, 1),
            kind: StmtKind::Local(Some(ExprFacts { id: hir(3, 2), kind: ExprKind::MethodCall })),
        })),
    );
    assert_eq!(some, vec![Vertex::Expr(hir(3, 2))]);
}

#[test]
fn definition_without_stability_has_no_stability() {
    let adapter = Adapter::new();
    let def = DefId { krate: 0, index: 4 };
    let edge = adapter.plan_edge("Def", "stability");
    assert_eq!(start_neighbors(edge, &Vertex::Def(def)), EdgeStep::Ask(SessionQuery::Stability(def)));
    assert_eq!(
        complete_neighbors(&SessionQuery::Stability(def), SessionAnswer::Stability(None)),
        vec![]
    );
    let record = StabilityRecord { level: unstable(), feature: "f".to_string() };
    assert_eq!(
        complete_neighbors(&SessionQuery::Stability(def), SessionAnswer::Stability(Some(record))),
        vec![Vertex::Stability(def)]
    );
    assert_eq!(
        complete_neighbors(&SessionQuery::ConstStability(def), SessionAnswer::ConstStability(None)),
        vec![]
    );
}

#[test]
fn since_is_null_on_unstable_record() {
    let adapter = Adapter::new();
    let def = DefId { krate: 2, index: 9 };
    let p = adapter.plan_property("Stability", "since");
    assert_eq!(p, Property::Stability(StabilityField::Since));
    assert_eq!(start_property(p, &Vertex::Stability(def)), PropertyStep::Ask(SessionQuery::Stability(def)));
    let record = StabilityRecord { level: unstable(), feature: "f".to_string() };
    assert_eq!(complete_property(p, SessionAnswer::Stability(Some(record))), Value::Null);
}

#[test]
fn issue_is_null_on_stable_record() {
    let adapter = Adapter::new();
    let p = adapter.plan_property("Stability", "issue");
    let record = StabilityRecord {
        level: stable(StableSince::Version("1.0.0".to_string())),
        feature: "rust1".to_string(),
    };
    assert_eq!(complete_property(p, SessionAnswer::Stability(Some(record))), Value::Null);
}

#[test]
fn stability_fields_of_unstable_record() {
    let feature = "f".to_string();
    let read = |f| stability_field(unstable(), feature.clone(), f);
    assert_eq!(read(StabilityField::Feature), Value::String("f".to_string()));
    assert_eq!(read(StabilityField::Stable), Value::Boolean(false));
    assert_eq!(read(StabilityField::Reason), Value::String("still in design".to_string()));
    assert_eq!(read(StabilityField::Issue), Value::Uint64(12345));
    assert_eq!(read(StabilityField::Soft), Value::Boolean(true));
    assert_eq!(read(StabilityField::ImpliedBy), Value::String("const_feature".to_string()));
    assert_eq!(read(StabilityField::Since), Value::Null);
    assert_eq!(read(StabilityField::AllowedThroughUnstableModules), Value::Null);
}

#[test]
fn stability_fields_of_stable_record() {
    let feature = "rust1".to_string();
    let read = |f| stability_field(stable(StableSince::Version("1.75.0".to_string())), feature.clone(), f);
    assert_eq!(read(StabilityField::Stable), Value::Boolean(true));
    assert_eq!(read(StabilityField::Since), Value::String("1.75.0".to_string()));
    assert_eq!(read(StabilityField::AllowedThroughUnstableModules), Value::Boolean(true));
    assert_eq!(read(StabilityField::Reason), Value::Null);
    assert_eq!(read(StabilityField::Soft), Value::Null);
    assert_eq!(read(StabilityField::ImpliedBy), Value::Null);
    let unresolved = stability_field(stable(StableSince::Current), feature.clone(), StabilityField::Since);
    assert_eq!(unresolved, Value::Null);
    let broken = stability_field(stable(StableSince::Unresolved), feature, StabilityField::Since);
    assert_eq!(broken, Value::Null);
}

#[test]
fn const_stability_properties() {
    let adapter = Adapter::new();
    let record = ConstStabilityRecord {
        level: stable(StableSince::Version("1.61.0".to_string())),
        feature: "const_fn".to_string(),
        promotable: true,
    };
    let promotable = adapter.plan_property("ConstStability", "promotable");
    assert_eq!(promotable, Property::ConstPromotable);
    assert_eq!(
        complete_property(promotable, SessionAnswer::ConstStability(Some(record.clone()))),
        Value::Boolean(true)
    );
    let stable_p = adapter.plan_property("ConstStability", "stable");
    assert_eq!(
        complete_property(stable_p, SessionAnswer::ConstStability(Some(record.clone()))),
        Value::Boolean(true)
    );
    let since = adapter.plan_property("ConstStability", "since");
    assert_eq!(
        complete_property(since, SessionAnswer::ConstStability(Some(record))),
        Value::String("1.61.0".to_string())
    );
    assert!(!adapter.property_declared_by_name("Stability", "promotable"));
}

#[test]
fn def_properties() {
    let adapter = Adapter::new();
    let def = DefId { krate: 1, index: 2 };
    let ident = adapter.plan_property("Def", "ident");
    assert_eq!(ident, Property::DefIdent);
    assert_eq!(start_property(ident, &Vertex::Def(def)), PropertyStep::Ask(SessionQuery::DefIdent(def)));
    assert_eq!(complete_property(ident, SessionAnswer::OptText(None)), Value::Null);
    assert_eq!(
        complete_property(ident, SessionAnswer::OptText(Some("into".to_string()))),
        Value::String("into".to_string())
    );
    let path = adapter.plan_property("Def", "path");
    assert_eq!(start_property(path, &Vertex::Def(def)), PropertyStep::Ask(SessionQuery::DefPath(def)));
}

#[test]
fn item_ident_on_fn_and_item() {
    let adapter = Adapter::new();
    let main = ItemId { owner_id: 3 };
    assert_eq!(adapter.plan_property("Fn", "ident"), Property::ItemIdent);
    assert_eq!(adapter.plan_property("Item", "ident"), Property::ItemIdent);
    assert_eq!(start_property(Property::ItemIdent, &Vertex::Fn(main)), PropertyStep::Ask(SessionQuery::ItemIdent(main)));
    assert_eq!(
        complete_property(Property::ItemIdent, SessionAnswer::Text("main".to_string())),
        Value::String("main".to_string())
    );
}

#[test]
fn inside_const_context_on_every_node_type() {
    let adapter = Adapter::new();
    for ty in ["Node", "Item", "Fn", "Body", "FnBody", "Expr", "Block", "MethodCall", "Statement", "LocalStatement"] {
        assert_eq!(adapter.plan_property(ty, "inside_const_context"), Property::InsideConstContext, "{ty}");
    }
    for ty in ["Crate", "Ty", "Def", "Stability", "ConstStability"] {
        assert!(!adapter.property_declared_by_name(ty, "inside_const_context"), "{ty}");
    }
    let item = Vertex::Item(ItemId { owner_id: 7 });
    assert_eq!(
        start_property(Property::InsideConstContext, &item),
        PropertyStep::Ask(SessionQuery::InsideConstContext(hir(7, 0)))
    );
    assert_eq!(
        complete_property(Property::InsideConstContext, SessionAnswer::Bool(true)),
        Value::Boolean(true)
    );
}

#[test]
fn typename_is_runtime_type() {
    let adapter = Adapter::new();
    let p = adapter.plan_property("Item", "__typename");
    assert_eq!(p, Property::Typename);
    assert_eq!(adapter.plan_property("Nonexistent", "__typename"), Property::Typename);
    let step = start_property(p, &Vertex::Fn(ItemId { owner_id: 1 }));
    assert_eq!(step, PropertyStep::Known(Value::String("Fn".to_string())));
    assert_eq!(Vertex::ConstStability(DefId { krate: 0, index: 0 }).typename(), "ConstStability");
    assert_eq!(Vertex::Crate.typename(), "Crate");
    assert_eq!(Vertex::LocalStatement(hir(1, 1)).vertex_type(), TypeName::LocalStatement);
}

#[test]
fn parent_edge_is_shared_by_node_types() {
    let adapter = Adapter::new();
    for ty in ["Node", "Item", "Fn", "Body", "FnBody", "Expr", "Block", "MethodCall", "Statement", "LocalStatement"] {
        assert_eq!(adapter.plan_edge(ty, "parent"), EdgeName::Parent, "{ty}");
    }
    assert!(!adapter.edge_declared_by_name("Crate", "parent"));
    let body = BodyId { hir_id: hir(3, 20) };
    assert_eq!(
        start_neighbors(EdgeName::Parent, &Vertex::FnBody(body)),
        EdgeStep::Ask(SessionQuery::Parent(hir(3, 20)))
    );
    assert_eq!(
        start_neighbors(EdgeName::Parent, &Vertex::Fn(ItemId { owner_id: 3 })),
        EdgeStep::Ask(SessionQuery::Parent(hir(3, 0)))
    );
    assert_eq!(
        complete_neighbors(&SessionQuery::Parent(hir(3, 20)), SessionAnswer::Node(Some(hir(3, 0)))),
        vec![Vertex::Node(hir(3, 0))]
    );
    assert_eq!(complete_neighbors(&SessionQuery::Parent(hir(3, 0)), SessionAnswer::Node(None)), vec![]);
}

#[test]
fn walked_expressions_are_method_calls_or_exprs() {
    let exprs = complete_neighbors(
        &SessionQuery::Exprs,
        SessionAnswer::Exprs(vec![
            ExprFacts { id: hir(1, 1), kind: ExprKind::Block },
            ExprFacts { id: hir(1, 2), kind: ExprKind::MethodCall },
            ExprFacts { id: hir(1, 3), kind: ExprKind::Other },
        ]),
    );
    assert_eq!(
        exprs,
        vec![Vertex::Expr(hir(1, 1)), Vertex::MethodCall(hir(1, 2)), Vertex::Expr(hir(1, 3))]
    );
    assert_eq!(complete_neighbors(&SessionQuery::Exprs, SessionAnswer::Exprs(vec![])), vec![]);
}

#[test]
fn body_value_is_classified() {
    let body = BodyId { hir_id: hir(3, 20) };
    assert_eq!(
        complete_neighbors(
            &SessionQuery::BodyValue(body),
            SessionAnswer::Expr(ExprFacts { id: hir(3, 20), kind: ExprKind::Block })
        ),
        vec![Vertex::Block(hir(3, 20))]
    );
}

#[test]
fn type_dependent_definition() {
    let ty = Vertex::Ty(hir(3, 7));
    let def = DefId { krate: 2, index: 100 };
    assert_eq!(start_neighbors(EdgeName::Def, &ty), EdgeStep::Ask(SessionQuery::TypeDependentDef(hir(3, 7))));
    assert_eq!(
        complete_neighbors(&SessionQuery::TypeDependentDef(hir(3, 7)), SessionAnswer::Def(Some(def))),
        vec![Vertex::Def(def)]
    );
    assert_eq!(
        complete_neighbors(&SessionQuery::TypeDependentDef(hir(3, 7)), SessionAnswer::Def(None)),
        vec![]
    );
}

#[test]
fn unknown_names_are_refused() {
    let adapter = Adapter::new();
    assert!(adapter.root_edge_declared("Crate"));
    assert!(!adapter.root_edge_declared("Item"));
    assert!(!adapter.root_edge_declared(""));
    assert!(!adapter.edge_declared_by_name("Widget", "parent"));
    assert!(!adapter.edge_declared_by_name("Fn", "statements"));
    assert!(!adapter.edge_declared_by_name("Fn", "no_such_edge"));
    assert!(adapter.edge_declared_by_name("Fn", "body"));
    assert!(!adapter.property_declared_by_name("Widget", "ident"));
    assert!(!adapter.property_declared_by_name("Ty", "ident"));
    assert!(!adapter.property_declared_by_name("Block", "colour"));
    assert!(adapter.property_declared_by_name("Ty", "as_string"));
    assert!(adapter.property_declared_by_name("Widget", "__typename"));
    assert!(type_declared("Node"));
    assert!(!type_declared("Widget"));
}

#[test]
fn foreign_vertices_are_refused() {
    let expr = Vertex::Expr(hir(1, 1));
    assert!(!edge_declared(Vertex::Crate.vertex_type(), EdgeName::Parent));
    assert!(!edge_declared(Vertex::Ty(hir(1, 1)).vertex_type(), EdgeName::Type));
    assert!(!edge_declared(expr.vertex_type(), EdgeName::Item));
    assert!(!edge_declared(expr.vertex_type(), EdgeName::Def));
    assert!(!edge_declared(Vertex::Fn(ItemId { owner_id: 1 }).vertex_type(), EdgeName::Type));
    assert!(!edge_declared(Vertex::Item(ItemId { owner_id: 1 }).vertex_type(), EdgeName::Body));
    assert!(!edge_declared(Vertex::Statement(hir(1, 1)).vertex_type(), EdgeName::Init));
    assert!(edge_declared(Vertex::Block(hir(1, 1)).vertex_type(), EdgeName::Type));
    assert!(!Property::TyAsString.applies_to(&expr));
    assert!(!Property::Stability(StabilityField::Since).applies_to(&Vertex::ConstStability(DefId { krate: 0, index: 1 })));
    assert!(!Property::DefPath.applies_to(&Vertex::Stability(DefId { krate: 0, index: 1 })));
    assert!(Property::Typename.applies_to(&Vertex::Crate));
    assert!(Property::InsideConstContext.applies_to(&Vertex::FnBody(BodyId { hir_id: hir(1, 1) })));
}

#[test]
fn broken_session_answers_are_refused() {
    let main = ItemId { owner_id: 3 };
    assert!(!answer_fits(&SessionQuery::Items, &SessionAnswer::Bool(true)));
    assert!(answer_fits(&SessionQuery::Items, &SessionAnswer::Items(vec![])));
    assert!(!answer_fits(&SessionQuery::Item(main), &SessionAnswer::Item(ItemFacts { id: main, kind: ItemKind::Other })));
    assert!(!answer_fits(&SessionQuery::BlockStatements(hir(1, 1)), &SessionAnswer::Statements(None)));
    assert!(!answer_fits(&SessionQuery::Stmt(hir(1, 1)), &SessionAnswer::Stmt(None)));
    assert!(answer_fits(&SessionQuery::Stability(DefId { krate: 0, index: 1 }), &SessionAnswer::Stability(None)));
    assert!(!property_answer_fits(Property::Stability(StabilityField::Feature), &SessionAnswer::Stability(None)));
    assert!(!property_answer_fits(Property::ConstPromotable, &SessionAnswer::ConstStability(None)));
    assert!(!property_answer_fits(Property::DefPath, &SessionAnswer::Bool(false)));
    assert!(!property_answer_fits(Property::Typename, &SessionAnswer::Text("Fn".to_string())));
    assert!(property_answer_fits(Property::DefIdent, &SessionAnswer::OptText(None)));
}

#[test]
fn subtype_relation() {
    assert_eq!(is_subtype("Node", "Fn"), true);
    assert_eq!(is_subtype("Item", "Fn"), true);
    assert_eq!(is_subtype("Fn", "Item"), false);
    assert_eq!(is_subtype("Expr", "Block"), true);
    assert_eq!(is_subtype("Statement", "LocalStatement"), true);
    assert_eq!(is_subtype("Node", "Ty"), false);
    assert_eq!(is_subtype("Node", "Crate"), false);
    assert_eq!(is_subtype("Ty", "Ty"), true);
    assert_eq!(is_subtype("Node", "Widget"), false);
    assert!(!type_declared("Widget"));
}

#[test]
fn coercion_follows_runtime_type() {
    let adapter = Adapter::new();
    let call = Vertex::MethodCall(hir(1, 1));
    assert_eq!(adapter.resolve_coercion(&call, "MethodCall"), true);
    assert_eq!(adapter.resolve_coercion(&call, "Expr"), true);
    assert_eq!(adapter.resolve_coercion(&call, "Node"), true);
    assert_eq!(adapter.resolve_coercion(&call, "Block"), false);
    assert_eq!(adapter.resolve_coercion(&Vertex::Expr(hir(1, 1)), "MethodCall"), false);
}

#[test]
fn identity_projections() {
    let item = ItemId { owner_id: 5 };
    let body = BodyId { hir_id: hir(5, 9) };
    let def = DefId { krate: 3, index: 4 };
    assert_eq!(item.hir_id(), hir(5, 0));
    assert_eq!(Vertex::Fn(item).hir_id(), Some(hir(5, 0)));
    assert_eq!(Vertex::Body(body).hir_id(), Some(hir(5, 9)));
    assert_eq!(Vertex::Statement(hir(5, 2)).hir_id(), Some(hir(5, 2)));
    assert_eq!(Vertex::Ty(hir(5, 2)).hir_id(), None);
    assert_eq!(Vertex::Crate.hir_id(), None);
    assert_eq!(Vertex::Def(def).hir_id(), None);
    assert_eq!(Vertex::Item(item).item_id(), Some(item));
    assert_eq!(Vertex::Node(hir(5, 0)).item_id(), None);
    assert_eq!(Vertex::FnBody(body).body_id(), Some(body));
    assert_eq!(Vertex::Expr(hir(5, 9)).body_id(), None);
    assert_eq!(Vertex::Def(def).def_id(), Some(def));
    assert_eq!(Vertex::Stability(def).def_id(), None);
}

#[test]
fn downcasts_match_only_their_variant() {
    let def = DefId { krate: 3, index: 4 };
    assert_eq!(Vertex::Stability(def).as_stability(), Some(def));
    assert_eq!(Vertex::Stability(def).as_const_stability(), None);
    assert_eq!(Vertex::Block(hir(1, 2)).as_block(), Some(hir(1, 2)));
    assert_eq!(Vertex::Block(hir(1, 2)).as_expr(), None);
    assert_eq!(Vertex::Crate.as_crate(), Some(()));
    assert_eq!(Vertex::Node(hir(1, 1)).as_crate(), None);
}

#[test]
fn compiler_config_keeps_its_source() {
    let config = CompilerConfig::new("main.rs", "fn main() {}");
    assert_eq!(config.filename(), "main.rs");
    assert_eq!(config.input(), "fn main() {}");
}

#[test]
fn schema_text_declares_crate_root() {
    assert!(Adapter::schema().contains("Crate: Crate!"));
}
