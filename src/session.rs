use vstd::prelude::*;

use crate::ids::{BodyId, DefId, HirId, ItemId};

verus! {

/// The syntactic kind of an item, as far as the graph distinguishes it.
#[derive(Debug, Clone, Copy, PartialEq, Eq, Structural)]
pub enum ItemKind {
    /// A function definition, with its body.
    Fn(BodyId),
    Other,
}

#[derive(Debug, Clone, Copy, PartialEq, Eq, Structural)]
pub struct ItemFacts {
    pub id: ItemId,
    pub kind: ItemKind,
}

/// The syntactic kind of an expression, as far as the graph distinguishes it.
#[derive(Debug, Clone, Copy, PartialEq, Eq, Structural)]
pub enum ExprKind {
    Block,
    MethodCall,
    Other,
}

#[derive(Debug, Clone, Copy, PartialEq, Eq, Structural)]
pub struct ExprFacts {
    pub id: HirId,
    pub kind: ExprKind,
}

/// The syntactic kind of a statement.
#[derive(Debug, Clone, Copy, PartialEq, Eq, Structural)]
pub enum StmtKind {
    /// A local binding, with its initializer expression if it has one.
    Local(Option<ExprFacts>),
    Other,
}

#[derive(Debug, Clone, Copy, PartialEq, Eq, Structural)]
pub struct StmtFacts {
    pub id: HirId,
    pub kind: StmtKind,
}

/// Since when a stable definition is stable.
#[derive(Debug, Clone, PartialEq, Eq)]
pub enum StableSince {
    /// A concrete version, rendered as text.
    Version(String),
    /// The version currently being built.
    Current,
    /// A marker that could not be resolved.
    Unresolved,
}

/// The stable-or-unstable branch of a stability record.
#[derive(Debug, Clone, PartialEq, Eq)]
pub enum StabilityLevel {
    Unstable {
        reason: Option<String>,
        issue: Option<u32>,
        is_soft: bool,
        implied_by: Option<String>,
    },
    Stable { since: StableSince, allowed_through_unstable_modules: bool },
}

/// The stability attribute facts of a definition.
#[derive(Debug, Clone, PartialEq, Eq)]
pub struct StabilityRecord {
    pub level: StabilityLevel,
    pub feature: String,
}

/// The const-stability attribute facts of a definition.
#[derive(Debug, Clone, PartialEq, Eq)]
pub struct ConstStabilityRecord {
    pub level: StabilityLevel,
    pub feature: String,
    pub promotable: bool,
}

/// A question put to the compiler session.
#[derive(Debug, Clone, Copy, PartialEq, Eq, Structural)]
pub enum SessionQuery {
    /// The crate's top-level items, in order.
    Items,
    /// Every expression inside a body, in pre-order.
    Exprs,
    /// The facts of one item.
    Item(ItemId),
    /// The root expression of a body.
    BodyValue(BodyId),
    /// The statements of the block expression at a node.
    BlockStatements(HirId),
    /// The statement at a node.
    Stmt(HirId),
    /// The immediately enclosing node.
    Parent(HirId),
    /// The stability record of a definition.
    Stability(DefId),
    /// The const-stability record of a definition.
    ConstStability(DefId),
    /// The definition that a type-dependent node resolves to.
    TypeDependentDef(HirId),
    /// Whether a node lies inside a compile-time-only context.
    InsideConstContext(HirId),
    /// The declared name of an item.
    ItemIdent(ItemId),
    /// The declared name of a definition, if it has one.
    DefIdent(DefId),
    /// The fully qualified path of a definition.
    DefPath(DefId),
    /// The rendered inferred type of the expression at a node.
    NodeType(HirId),
}

/// What the compiler session answered.
#[derive(Debug, Clone, PartialEq, Eq)]
pub enum SessionAnswer {
    Items(Vec<ItemFacts>),
    Exprs(Vec<ExprFacts>),
    Item(ItemFacts),
    Expr(ExprFacts),
    /// The statements of a block; `None` when the node is not a block expression.
    Statements(Option<Vec<StmtFacts>>),
    /// The statement; `None` when the node is not a statement.
    Stmt(Option<StmtFacts>),
    Node(Option<HirId>),
    Def(Option<DefId>),
    Stability(Option<StabilityRecord>),
    ConstStability(Option<ConstStabilityRecord>),
    Bool(bool),
    Text(String),
    OptText(Option<String>),
}

/// A scalar property value.
#[derive(Debug, Clone, PartialEq, Eq)]
pub enum Value {
    Null,
    String(String),
    Boolean(bool),
    Uint64(u64),
}

/// Why a request is refused. Each one is a broken invariant: the caller and
/// the schema have drifted apart, or the session broke its promise. The
/// executable functions leave such inputs out by their preconditions, and
/// offer a test for each (`edge_declared_by_name`, `answer_fits`, ...).
#[derive(Debug, Clone, Copy, PartialEq, Eq, Structural)]
pub enum AdapterError {
    /// A name that is not a type of the schema.
    UnknownType,
    /// A root edge that the schema does not declare.
    UnknownEntrypoint,
    /// An edge that the type does not declare.
    UnknownEdge,
    /// A property that the type does not declare.
    UnknownProperty,
    /// A vertex of a variant that the resolver does not take.
    VertexMismatch,
    /// An answer that does not belong to the query.
    AnswerMismatch,
    /// A function's body was asked for on an item that is not a function.
    NotAFunction,
    /// Statements were asked for on a node that is not a block expression.
    NotABlock,
    /// A local binding was asked for on a node that is not a statement.
    NotAStatement,
    /// A stability vertex whose definition has no such record.
    MissingStabilityRecord,
}

} // verus!
