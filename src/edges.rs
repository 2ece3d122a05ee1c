use vstd::prelude::*;

use crate::schema::{declares_edge, EdgeName};
use crate::session::{
    AdapterError, ExprFacts, ExprKind, ItemFacts, ItemKind, SessionAnswer, SessionQuery,
    StmtFacts, StmtKind,
};
use crate::vertex::Vertex;

verus! {

/// The first step of resolving an edge from one vertex.
#[derive(Debug, Clone, Copy, PartialEq, Eq, Structural)]
pub enum EdgeStep {
    /// The edge leads to exactly this vertex; the session is not needed.
    Known(Vertex),
    /// The neighbors follow from the session's answer to this query.
    Ask(SessionQuery),
}

/// A top-level item: `Fn` when it is a function definition, else `Item`.
pub open spec fn item_vertex(f: ItemFacts) -> Vertex {
    match f.kind {
        ItemKind::Fn(_) => Vertex::Fn(f.id),
        ItemKind::Other => Vertex::Item(f.id),
    }
}

/// An expression met while walking the crate's bodies: `MethodCall` or `Expr`.
pub open spec fn walked_expr_vertex(f: ExprFacts) -> Vertex {
    match f.kind {
        ExprKind::MethodCall => Vertex::MethodCall(f.id),
        _ => Vertex::Expr(f.id),
    }
}

/// An expression whose kind is known: `Block`, `MethodCall` or `Expr`.
pub open spec fn expr_vertex(f: ExprFacts) -> Vertex {
    match f.kind {
        ExprKind::Block => Vertex::Block(f.id),
        ExprKind::MethodCall => Vertex::MethodCall(f.id),
        ExprKind::Other => Vertex::Expr(f.id),
    }
}

/// A statement: `LocalStatement` when it binds a variable, else `Statement`.
pub open spec fn stmt_vertex(f: StmtFacts) -> Vertex {
    match f.kind {
        StmtKind::Local(_) => Vertex::LocalStatement(f.id),
        StmtKind::Other => Vertex::Statement(f.id),
    }
}

/// What resolving edge `e` from vertex `v` starts with.
pub open spec fn neighbor_step(e: EdgeName, v: Vertex) -> Result<EdgeStep, AdapterError> {
    match e {
        EdgeName::Parent => match v.spec_hir_id() {
            Some(h) => Ok(EdgeStep::Ask(SessionQuery::Parent(h))),
            None => Err(AdapterError::VertexMismatch),
        },
        EdgeName::Item => if v is Crate {
            Ok(EdgeStep::Ask(SessionQuery::Items))
        } else {
            Err(AdapterError::VertexMismatch)
        },
        EdgeName::Expr => if v is Crate {
            Ok(EdgeStep::Ask(SessionQuery::Exprs))
        } else {
            Err(AdapterError::VertexMismatch)
        },
        EdgeName::Body => match v.spec_item_id() {
            Some(i) => Ok(EdgeStep::Ask(SessionQuery::Item(i))),
            None => Err(AdapterError::VertexMismatch),
        },
        EdgeName::Value => match v.spec_body_id() {
            Some(b) => Ok(EdgeStep::Ask(SessionQuery::BodyValue(b))),
            None => Err(AdapterError::VertexMismatch),
        },
        EdgeName::Statements => match v.spec_hir_id() {
            Some(h) => Ok(EdgeStep::Ask(SessionQuery::BlockStatements(h))),
            None => Err(AdapterError::VertexMismatch),
        },
        EdgeName::Type => match v.spec_hir_id() {
            Some(h) => Ok(EdgeStep::Known(Vertex::Ty(h))),
            None => Err(AdapterError::VertexMismatch),
        },
        EdgeName::Init => match v.spec_hir_id() {
            Some(h) => Ok(EdgeStep::Ask(SessionQuery::Stmt(h))),
            None => Err(AdapterError::VertexMismatch),
        },
        EdgeName::Stability => match v.spec_def_id() {
            Some(d) => Ok(EdgeStep::Ask(SessionQuery::Stability(d))),
            None => Err(AdapterError::VertexMismatch),
        },
        EdgeName::ConstStability => match v.spec_def_id() {
            Some(d) => Ok(EdgeStep::Ask(SessionQuery::ConstStability(d))),
            None => Err(AdapterError::VertexMismatch),
        },
        EdgeName::Def => match v {
            Vertex::Ty(h) => Ok(EdgeStep::Ask(SessionQuery::TypeDependentDef(h))),
            _ => Err(AdapterError::VertexMismatch),
        },
    }
}

/// The neighbors that the session's answer `a` to query `q` gives.
pub open spec fn neighbors_from(q: SessionQuery, a: SessionAnswer) -> Result<
    Seq<Vertex>,
    AdapterError,
> {
    match (q, a) {
        (SessionQuery::Items, SessionAnswer::Items(v)) => Ok(
            v@.map_values(|f: ItemFacts| item_vertex(f)),
        ),
        (SessionQuery::Exprs, SessionAnswer::Exprs(v)) => Ok(
            v@.map_values(|f: ExprFacts| walked_expr_vertex(f)),
        ),
        (SessionQuery::Item(_), SessionAnswer::Item(f)) => match f.kind {
            ItemKind::Fn(b) => Ok(seq![Vertex::FnBody(b)]),
            ItemKind::Other => Err(AdapterError::NotAFunction),
        },
        (SessionQuery::BodyValue(_), SessionAnswer::Expr(f)) => Ok(seq![expr_vertex(f)]),
        (SessionQuery::BlockStatements(_), SessionAnswer::Statements(o)) => match o {
            Some(v) => Ok(v@.map_values(|f: StmtFacts| stmt_vertex(f))),
            None => Err(AdapterError::NotABlock),
        },
        (SessionQuery::Stmt(_), SessionAnswer::Stmt(o)) => match o {
            Some(f) => match f.kind {
                StmtKind::Local(Some(init)) => Ok(seq![Vertex::Expr(init.id)]),
                _ => Ok(Seq::empty()),
            },
            None => Err(AdapterError::NotAStatement),
        },
        (SessionQuery::Parent(_), SessionAnswer::Node(o)) => match o {
            Some(h) => Ok(seq![Vertex::Node(h)]),
            None => Ok(Seq::empty()),
        },
        (SessionQuery::Stability(d), SessionAnswer::Stability(o)) => if o is Some {
            Ok(seq![Vertex::Stability(d)])
        } else {
            Ok(Seq::empty())
        },
        (SessionQuery::ConstStability(d), SessionAnswer::ConstStability(o)) => if o is Some {
            Ok(seq![Vertex::ConstStability(d)])
        } else {
            Ok(Seq::empty())
        },
        (SessionQuery::TypeDependentDef(_), SessionAnswer::Def(o)) => match o {
            Some(d) => Ok(seq![Vertex::Def(d)]),
            None => Ok(Seq::empty()),
        },
        _ => Err(AdapterError::AnswerMismatch),
    }
}

/// Starts resolving edge `e` from `v`: either the one neighbor, or the query
/// whose answer gives the neighbors. The vertex's own type must declare the
/// edge; asking otherwise is a broken invariant of the caller.
pub fn start_neighbors(e: EdgeName, v: &Vertex) -> (r: EdgeStep)
    requires
        declares_edge(v.type_of(), e),
    ensures
        neighbor_step(e, *v) == Ok::<EdgeStep, AdapterError>(r),
{
    match e {
        EdgeName::Parent => EdgeStep::Ask(SessionQuery::Parent(v.hir_id().unwrap())),
        EdgeName::Item => EdgeStep::Ask(SessionQuery::Items),
        EdgeName::Expr => EdgeStep::Ask(SessionQuery::Exprs),
        EdgeName::Body => EdgeStep::Ask(SessionQuery::Item(v.item_id().unwrap())),
        EdgeName::Value => EdgeStep::Ask(SessionQuery::BodyValue(v.body_id().unwrap())),
        EdgeName::Statements => EdgeStep::Ask(SessionQuery::BlockStatements(v.hir_id().unwrap())),
        EdgeName::Type => EdgeStep::Known(Vertex::Ty(v.hir_id().unwrap())),
        EdgeName::Init => EdgeStep::Ask(SessionQuery::Stmt(v.hir_id().unwrap())),
        EdgeName::Stability => EdgeStep::Ask(SessionQuery::Stability(v.def_id().unwrap())),
        EdgeName::ConstStability => EdgeStep::Ask(SessionQuery::ConstStability(v.def_id().unwrap())),
        EdgeName::Def => EdgeStep::Ask(SessionQuery::TypeDependentDef(v.as_ty().unwrap())),
    }
}

fn classify_items(items: &Vec<ItemFacts>) -> (r: Vec<Vertex>)
    ensures
        r@ == items@.map_values(|f: ItemFacts| item_vertex(f)),
{
    let mut r: Vec<Vertex> = Vec::new();
    let mut i: usize = 0;
    while i < items.len()
        invariant
            i <= items@.len(),
            r@ == items@.take(i as int).map_values(|f: ItemFacts| item_vertex(f)),
        decreases items@.len() - i,
    {
        let f = items[i];
        let v = match f.kind {
            ItemKind::Fn(_) => Vertex::Fn(f.id),
            ItemKind::Other => Vertex::Item(f.id),
        };
        r.push(v);
        i = i + 1;
        assert(items@.take(i as int) =~= items@.take(i - 1).push(f));
    }
    assert(items@.take(i as int) =~= items@);
    r
}

fn classify_walked_exprs(exprs: &Vec<ExprFacts>) -> (r: Vec<Vertex>)
    ensures
        r@ == exprs@.map_values(|f: ExprFacts| walked_expr_vertex(f)),
{
    let mut r: Vec<Vertex> = Vec::new();
    let mut i: usize = 0;
    while i < exprs.len()
        invariant
            i <= exprs@.len(),
            r@ == exprs@.take(i as int).map_values(|f: ExprFacts| walked_expr_vertex(f)),
        decreases exprs@.len() - i,
    {
        let f = exprs[i];
        let v = match f.kind {
            ExprKind::MethodCall => Vertex::MethodCall(f.id),
            _ => Vertex::Expr(f.id),
        };
        r.push(v);
        i = i + 1;
        assert(exprs@.take(i as int) =~= exprs@.take(i - 1).push(f));
    }
    assert(exprs@.take(i as int) =~= exprs@);
    r
}

fn classify_statements(stmts: &Vec<StmtFacts>) -> (r: Vec<Vertex>)
    ensures
        r@ == stmts@.map_values(|f: StmtFacts| stmt_vertex(f)),
{
    let mut r: Vec<Vertex> = Vec::new();
    let mut i: usize = 0;
    while i < stmts.len()
        invariant
            i <= stmts@.len(),
            r@ == stmts@.take(i as int).map_values(|f: StmtFacts| stmt_vertex(f)),
        decreases stmts@.len() - i,
    {
        let f = stmts[i];
        let v = match f.kind {
            StmtKind::Local(_) => Vertex::LocalStatement(f.id),
            StmtKind::Other => Vertex::Statement(f.id),
        };
        r.push(v);
        i = i + 1;
        assert(stmts@.take(i as int) =~= stmts@.take(i - 1).push(f));
    }
    assert(stmts@.take(i as int) =~= stmts@);
    r
}

fn classify_expr(f: ExprFacts) -> (r: Vertex)
    ensures
        r == expr_vertex(f),
{
    match f.kind {
        ExprKind::Block => Vertex::Block(f.id),
        ExprKind::MethodCall => Vertex::MethodCall(f.id),
        ExprKind::Other => Vertex::Expr(f.id),
    }
}

/// Whether `answer` is a well-formed answer to `query`: of the matching kind,
/// and not one that breaks the query's own promise (a function item without a
/// body, a block that is no block, a statement that is no statement).
pub fn answer_fits(query: &SessionQuery, answer: &SessionAnswer) -> (r: bool)
    ensures
        r == neighbors_from(*query, *answer) is Ok,
{
    match (query, answer) {
        (SessionQuery::Items, SessionAnswer::Items(_)) => true,
        (SessionQuery::Exprs, SessionAnswer::Exprs(_)) => true,
        (SessionQuery::Item(_), SessionAnswer::Item(f)) => match f.kind {
            ItemKind::Fn(_) => true,
            ItemKind::Other => false,
        },
        (SessionQuery::BodyValue(_), SessionAnswer::Expr(_)) => true,
        (SessionQuery::BlockStatements(_), SessionAnswer::Statements(o)) => o.is_some(),
        (SessionQuery::Stmt(_), SessionAnswer::Stmt(o)) => o.is_some(),
        (SessionQuery::Parent(_), SessionAnswer::Node(_)) => true,
        (SessionQuery::Stability(_), SessionAnswer::Stability(_)) => true,
        (SessionQuery::ConstStability(_), SessionAnswer::ConstStability(_)) => true,
        (SessionQuery::TypeDependentDef(_), SessionAnswer::Def(_)) => true,
        _ => false,
    }
}

/// Finishes resolving an edge: the neighbors that the session's answer to
/// `query` gives, in the order the session gave them. The answer must fit
/// the query (see `answer_fits`).
pub fn complete_neighbors(query: &SessionQuery, answer: SessionAnswer) -> (r: Vec<Vertex>)
    requires
        neighbors_from(*query, answer) is Ok,
    ensures
        r@ == neighbors_from(*query, answer)->Ok_0,
{
    match (query, answer) {
        (SessionQuery::Items, SessionAnswer::Items(v)) => classify_items(&v),
        (SessionQuery::Exprs, SessionAnswer::Exprs(v)) => classify_walked_exprs(&v),
        (SessionQuery::Item(_), SessionAnswer::Item(f)) => match f.kind {
            ItemKind::Fn(b) => vec![Vertex::FnBody(b)],
            ItemKind::Other => unreached(),
        },
        (SessionQuery::BodyValue(_), SessionAnswer::Expr(f)) => vec![classify_expr(f)],
        (SessionQuery::BlockStatements(_), SessionAnswer::Statements(o)) => match o {
            Some(v) => classify_statements(&v),
            None => unreached(),
        },
        (SessionQuery::Stmt(_), SessionAnswer::Stmt(o)) => match o {
            Some(f) => match f.kind {
                StmtKind::Local(Some(init)) => vec![Vertex::Expr(init.id)],
                _ => Vec::new(),
            },
            None => unreached(),
        },
        (SessionQuery::Parent(_), SessionAnswer::Node(o)) => match o {
            Some(h) => vec![Vertex::Node(h)],
            None => Vec::new(),
        },
        (SessionQuery::Stability(d), SessionAnswer::Stability(o)) => if o.is_some() {
            vec![Vertex::Stability(*d)]
        } else {
            Vec::new()
        },
        (SessionQuery::ConstStability(d), SessionAnswer::ConstStability(o)) => if o.is_some() {
            vec![Vertex::ConstStability(*d)]
        } else {
            Vec::new()
        },
        (SessionQuery::TypeDependentDef(_), SessionAnswer::Def(o)) => match o {
            Some(d) => vec![Vertex::Def(d)],
            None => Vec::new(),
        },
        _ => unreached(),
    }
}

} // verus!
