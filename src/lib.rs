//! A typed property-graph view of a compiler's program representation.
//!
//! The library holds the vertex model, the schema's type hierarchy and the
//! dispatch of every starting-vertex, property, edge and coercion request.
//! The compiler session itself is an outside service: each resolver step
//! either answers at once or names the session query it needs, and the
//! matching `complete_*` function turns the session's answer into vertices
//! or property values. A request that the schema does not declare, or a
//! session answer that does not fit its query, is a broken invariant: each
//! step requires its input to be well-formed, and a test function beside it
//! lets the caller check first and abort.

mod adapter;
mod compiler_config;
mod edges;
mod ids;
mod laws;
mod properties;
mod schema;
mod session;
mod text;
mod vertex;

pub use adapter::{is_subtype, type_declared, Adapter, SCHEMA_TEXT};
pub use compiler_config::CompilerConfig;
pub use edges::{answer_fits, complete_neighbors, start_neighbors, EdgeStep};
pub use ids::{BodyId, DefId, HirId, ItemId};
pub use laws::{
    lemma_block_statements_in_order, lemma_edge_conformance, lemma_null_on_other_branch,
    lemma_optional_edges_absent, lemma_property_conformance,
};
pub use properties::{
    complete_property, property_answer_fits, stability_field, start_property, Property,
    PropertyStep, StabilityField,
};
pub use schema::{edge_declared, EdgeName, PropertyName, TypeName};
pub use session::{
    AdapterError, ConstStabilityRecord, ExprFacts, ExprKind, ItemFacts, ItemKind, SessionAnswer,
    SessionQuery, StabilityLevel, StabilityRecord, StableSince, StmtFacts, StmtKind, Value,
};
pub use vertex::Vertex;
