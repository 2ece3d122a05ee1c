use vstd::prelude::*;

use crate::adapter::{edge_plan, property_handler, property_plan};
use crate::edges::{neighbor_step, neighbors_from, EdgeStep};
use crate::ids::{DefId, HirId};
use crate::properties::{property_applies, property_query, stability_value, StabilityField};
use crate::schema::{
    declares_edge, declares_property, edge_named, lemma_edge_named, lemma_property_named,
    lemma_type_named, property_named, type_named, EdgeName, PropertyName, TypeName,
};
use crate::session::{
    AdapterError, ExprFacts, SessionAnswer, SessionQuery, StabilityLevel, StmtFacts, StmtKind, Value,
};
use crate::vertex::Vertex;

verus! {

/// A name found by lookup is the name of what it found.
proof fn lemma_lookup_sound(s: Seq<char>)
    ensures
        type_named(s) matches Some(t) ==> t.name() == s,
        edge_named(s) matches Some(e) ==> e.name() == s,
        property_named(s) matches Some(p) ==> p.name() == s,
{
}

/// Edge conformance: a (type, edge) pair that the schema declares dispatches
/// to exactly that edge, and its resolver takes every vertex whose type is
/// that type or one of its subtypes; a pair that the schema does not declare
/// is refused. A name that is no declared type or edge is refused too.
pub proof fn lemma_edge_conformance(t: TypeName, e: EdgeName, v: Vertex, ty: Seq<char>, edge: Seq<char>)
    ensures
        declares_edge(t, e) ==> edge_plan(t.name(), e.name()) == Ok::<EdgeName, AdapterError>(e),
        !declares_edge(t, e) ==> edge_plan(t.name(), e.name()) == Err::<EdgeName, AdapterError>(
            AdapterError::UnknownEdge,
        ),
        declares_edge(t, e) && v.type_of().is_subtype_of(t) ==> declares_edge(v.type_of(), e),
        declares_edge(t, e) && v.type_of().is_subtype_of(t) ==> neighbor_step(e, v) is Ok,
        edge_plan(ty, edge) is Ok <==> (exists|t2: TypeName, e2: EdgeName|
            t2.name() == ty && e2.name() == edge && declares_edge(t2, e2)),
        declares_edge(t, EdgeName::Parent) <==> t.is_subtype_of(TypeName::Node),
{
    lemma_type_named(t);
    lemma_edge_named(e);
    lemma_lookup_sound(ty);
    lemma_lookup_sound(edge);
    if edge_plan(ty, edge) is Ok {
        let t2 = type_named(ty)->0;
        let e2 = edge_named(edge)->0;
        assert(t2.name() == ty && e2.name() == edge && declares_edge(t2, e2));
    }
    if exists|t2: TypeName, e2: EdgeName|
        t2.name() == ty && e2.name() == edge && declares_edge(t2, e2) {
        let (t2, e2) = choose|t2: TypeName, e2: EdgeName|
            t2.name() == ty && e2.name() == edge && declares_edge(t2, e2);
        lemma_type_named(t2);
        lemma_edge_named(e2);
    }
}

/// Property conformance: a (type, property) pair that the schema declares
/// dispatches to its one handler, which takes every vertex whose type is that
/// type or one of its subtypes; a pair that the schema does not declare is
/// refused. `__typename` is answered on every type, and any other name that
/// is no property the schema declares on a declared type is refused.
pub proof fn lemma_property_conformance(
    t: TypeName,
    p: PropertyName,
    v: Vertex,
    ty: Seq<char>,
    prop: Seq<char>,
)
    ensures
        declares_property(t, p) ==> property_plan(t.name(), p.name()) == Ok::<
            crate::properties::Property,
            AdapterError,
        >(property_handler(t, p)),
        !declares_property(t, p) ==> property_plan(t.name(), p.name()) == Err::<
            crate::properties::Property,
            AdapterError,
        >(AdapterError::UnknownProperty),
        declares_property(t, p) && v.type_of().is_subtype_of(t) ==> property_query(
            property_handler(t, p),
            v,
        ) is Ok,
        declares_property(t, p) && v.type_of().is_subtype_of(t) ==> property_applies(
            property_handler(t, p),
            v,
        ),
        property_plan(ty, "__typename"@) == Ok::<crate::properties::Property, AdapterError>(
            crate::properties::Property::Typename,
        ),
        property_plan(ty, prop) is Ok <==> (prop == "__typename"@ || exists|t2: TypeName,
            p2: PropertyName| t2.name() == ty && p2.name() == prop && declares_property(t2, p2)),
{
    lemma_type_named(t);
    lemma_property_named(p);
    lemma_lookup_sound(ty);
    lemma_lookup_sound(prop);
    if property_plan(ty, prop) is Ok && prop != "__typename"@ {
        let t2 = type_named(ty)->0;
        let p2 = property_named(prop)->0;
        assert(t2.name() == ty && p2.name() == prop && declares_property(t2, p2));
    }
    if prop != "__typename"@ && exists|t2: TypeName, p2: PropertyName|
        t2.name() == ty && p2.name() == prop && declares_property(t2, p2) {
        let (t2, p2) = choose|t2: TypeName, p2: PropertyName|
            t2.name() == ty && p2.name() == prop && declares_property(t2, p2);
        lemma_type_named(t2);
        lemma_property_named(p2);
    }
    reveal_strlit("__typename");
    assert(p.name() != "__typename"@) by {
        reveal_strlit("inside_const_context");
        reveal_strlit("ident");
        reveal_strlit("path");
        reveal_strlit("as_string");
        reveal_strlit("feature");
        reveal_strlit("stable");
        reveal_strlit("promotable");
        reveal_strlit("reason");
        reveal_strlit("issue");
        reveal_strlit("soft");
        reveal_strlit("implied_by");
        reveal_strlit("since");
        reveal_strlit("allowed_through_unstable_modules");
        assert(p.name()[0] != "__typename"@[0]);
    }
}

/// A block holding a local binding followed by a bare expression statement
/// has exactly two statement neighbors: `LocalStatement`, then `Statement`.
pub proof fn lemma_block_statements_in_order(
    block: HirId,
    binding: StmtFacts,
    bare: StmtFacts,
    stmts: Vec<StmtFacts>,
)
    requires
        binding.kind is Local,
        bare.kind is Other,
        stmts@ == seq![binding, bare],
    ensures
        edge_plan(TypeName::Block.name(), EdgeName::Statements.name()) == Ok::<
            EdgeName,
            AdapterError,
        >(EdgeName::Statements),
        neighbor_step(EdgeName::Statements, Vertex::Block(block)) == Ok::<EdgeStep, AdapterError>(
            EdgeStep::Ask(SessionQuery::BlockStatements(block)),
        ),
        neighbors_from(SessionQuery::BlockStatements(block), SessionAnswer::Statements(Some(stmts)))
            == Ok::<Seq<Vertex>, AdapterError>(
            seq![Vertex::LocalStatement(binding.id), Vertex::Statement(bare.id)],
        ),
{
    lemma_type_named(TypeName::Block);
    lemma_edge_named(EdgeName::Statements);
    let s = stmts@.map_values(|f: StmtFacts| crate::edges::stmt_vertex(f));
    assert(s =~= seq![Vertex::LocalStatement(binding.id), Vertex::Statement(bare.id)]);
}

/// A local binding without an initializer has no `init` neighbor, while one
/// with an initializer has exactly that expression, as a plain `Expr`; a
/// definition without a stability record has no `stability` neighbor.
pub proof fn lemma_optional_edges_absent(binding: StmtFacts, init: ExprFacts, def: DefId)
    requires
        binding.kind == StmtKind::Local(None),
    ensures
        neighbors_from(
            SessionQuery::Stmt(binding.id),
            SessionAnswer::Stmt(Some(StmtFacts { id: binding.id, kind: StmtKind::Local(Some(init)) })),
        ) == Ok::<Seq<Vertex>, AdapterError>(seq![Vertex::Expr(init.id)]),
        neighbor_step(EdgeName::Init, Vertex::LocalStatement(binding.id)) == Ok::<
            EdgeStep,
            AdapterError,
        >(EdgeStep::Ask(SessionQuery::Stmt(binding.id))),
        neighbors_from(SessionQuery::Stmt(binding.id), SessionAnswer::Stmt(Some(binding)))
            == Ok::<Seq<Vertex>, AdapterError>(Seq::empty()),
        neighbor_step(EdgeName::Stability, Vertex::Def(def)) == Ok::<EdgeStep, AdapterError>(
            EdgeStep::Ask(SessionQuery::Stability(def)),
        ),
        neighbors_from(SessionQuery::Stability(def), SessionAnswer::Stability(None)) == Ok::<
            Seq<Vertex>,
            AdapterError,
        >(Seq::empty()),
        neighbors_from(SessionQuery::ConstStability(def), SessionAnswer::ConstStability(None))
            == Ok::<Seq<Vertex>, AdapterError>(Seq::empty()),
{
}

/// A stability field that belongs to the other branch than the record's is
/// null: `since` and `allowed_through_unstable_modules` on an unstable
/// record, `reason`, `issue`, `soft` and `implied_by` on a stable one.
pub proof fn lemma_null_on_other_branch(level: StabilityLevel, feature: String)
    ensures
        level is Unstable ==> stability_value(level, feature, StabilityField::Since) == Value::Null,
        level is Unstable ==> stability_value(
            level,
            feature,
            StabilityField::AllowedThroughUnstableModules,
        ) == Value::Null,
        level is Stable ==> stability_value(level, feature, StabilityField::Issue) == Value::Null,
        level is Stable ==> stability_value(level, feature, StabilityField::Reason) == Value::Null,
        level is Stable ==> stability_value(level, feature, StabilityField::Soft) == Value::Null,
        level is Stable ==> stability_value(level, feature, StabilityField::ImpliedBy)
            == Value::Null,
{
}

} // verus!
