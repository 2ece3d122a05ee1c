use vstd::prelude::*;

use crate::session::{AdapterError, SessionAnswer, SessionQuery, StabilityLevel, StableSince, Value};
use crate::vertex::Vertex;

verus! {

/// One field of a stability or const-stability record.
#[derive(Debug, Clone, Copy, PartialEq, Eq, Structural)]
pub enum StabilityField {
    Feature,
    Stable,
    Reason,
    Issue,
    Soft,
    ImpliedBy,
    Since,
    AllowedThroughUnstableModules,
}

/// The handler that a (type, property) pair of the schema resolves to.
#[derive(Debug, Clone, Copy, PartialEq, Eq, Structural)]
pub enum Property {
    /// The vertex's own runtime type name, on every type.
    Typename,
    /// Whether a syntax node lies inside a compile-time-only context.
    InsideConstContext,
    ItemIdent,
    DefIdent,
    DefPath,
    TyAsString,
    Stability(StabilityField),
    ConstStability(StabilityField),
    ConstPromotable,
}

/// The first step of resolving a property on one vertex.
#[derive(Debug, Clone, PartialEq, Eq)]
pub enum PropertyStep {
    /// The value is known without the session.
    Known(Value),
    /// The value follows from the session's answer to this query.
    Ask(SessionQuery),
}

/// The session query that property `p` of vertex `v` needs. `Typename` needs none.
pub open spec fn property_query(p: Property, v: Vertex) -> Result<SessionQuery, AdapterError> {
    match p {
        Property::Typename => Err(AdapterError::AnswerMismatch),
        Property::InsideConstContext => match v.spec_hir_id() {
            Some(h) => Ok(SessionQuery::InsideConstContext(h)),
            None => Err(AdapterError::VertexMismatch),
        },
        Property::ItemIdent => match v.spec_item_id() {
            Some(i) => Ok(SessionQuery::ItemIdent(i)),
            None => Err(AdapterError::VertexMismatch),
        },
        Property::DefIdent => match v.spec_def_id() {
            Some(d) => Ok(SessionQuery::DefIdent(d)),
            None => Err(AdapterError::VertexMismatch),
        },
        Property::DefPath => match v.spec_def_id() {
            Some(d) => Ok(SessionQuery::DefPath(d)),
            None => Err(AdapterError::VertexMismatch),
        },
        Property::TyAsString => match v {
            Vertex::Ty(h) => Ok(SessionQuery::NodeType(h)),
            _ => Err(AdapterError::VertexMismatch),
        },
        Property::Stability(_) => match v {
            Vertex::Stability(d) => Ok(SessionQuery::Stability(d)),
            _ => Err(AdapterError::VertexMismatch),
        },
        Property::ConstStability(_) | Property::ConstPromotable => match v {
            Vertex::ConstStability(d) => Ok(SessionQuery::ConstStability(d)),
            _ => Err(AdapterError::VertexMismatch),
        },
    }
}

/// A field of a stability record. A field that belongs to the other branch
/// (stable or unstable) than the record's is null.
pub open spec fn stability_value(level: StabilityLevel, feature: String, f: StabilityField) -> Value {
    match f {
        StabilityField::Feature => Value::String(feature),
        StabilityField::Stable => Value::Boolean(level is Stable),
        StabilityField::Reason => match level {
            StabilityLevel::Unstable { reason: Some(r), .. } => Value::String(r),
            _ => Value::Null,
        },
        StabilityField::Issue => match level {
            StabilityLevel::Unstable { issue: Some(n), .. } => Value::Uint64(n as u64),
            _ => Value::Null,
        },
        StabilityField::Soft => match level {
            StabilityLevel::Unstable { is_soft, .. } => Value::Boolean(is_soft),
            _ => Value::Null,
        },
        StabilityField::ImpliedBy => match level {
            StabilityLevel::Unstable { implied_by: Some(s), .. } => Value::String(s),
            _ => Value::Null,
        },
        StabilityField::Since => match level {
            StabilityLevel::Stable { since: StableSince::Version(s), .. } => Value::String(s),
            _ => Value::Null,
        },
        StabilityField::AllowedThroughUnstableModules => match level {
            StabilityLevel::Stable { allowed_through_unstable_modules, .. } => Value::Boolean(
                allowed_through_unstable_modules,
            ),
            _ => Value::Null,
        },
    }
}

/// The value that the session's answer `a` gives for property `p`.
pub open spec fn property_from(p: Property, a: SessionAnswer) -> Result<Value, AdapterError> {
    match (p, a) {
        (Property::InsideConstContext, SessionAnswer::Bool(b)) => Ok(Value::Boolean(b)),
        (Property::ItemIdent, SessionAnswer::Text(s)) => Ok(Value::String(s)),
        (Property::DefPath, SessionAnswer::Text(s)) => Ok(Value::String(s)),
        (Property::TyAsString, SessionAnswer::Text(s)) => Ok(Value::String(s)),
        (Property::DefIdent, SessionAnswer::OptText(o)) => match o {
            Some(s) => Ok(Value::String(s)),
            None => Ok(Value::Null),
        },
        (Property::Stability(f), SessionAnswer::Stability(o)) => match o {
            Some(rec) => Ok(stability_value(rec.level, rec.feature, f)),
            None => Err(AdapterError::MissingStabilityRecord),
        },
        (Property::ConstStability(f), SessionAnswer::ConstStability(o)) => match o {
            Some(rec) => Ok(stability_value(rec.level, rec.feature, f)),
            None => Err(AdapterError::MissingStabilityRecord),
        },
        (Property::ConstPromotable, SessionAnswer::ConstStability(o)) => match o {
            Some(rec) => Ok(Value::Boolean(rec.promotable)),
            None => Err(AdapterError::MissingStabilityRecord),
        },
        _ => Err(AdapterError::AnswerMismatch),
    }
}

/// Whether property `p` can be read on `v`: `Typename` on every vertex, any
/// other property on the vertices whose type declares it.
pub open spec fn property_applies(p: Property, v: Vertex) -> bool {
    p is Typename || property_query(p, v) is Ok
}

impl Property {
    pub fn applies_to(&self, v: &Vertex) -> (r: bool)
        ensures
            r == property_applies(*self, *v),
    {
        match self {
            Property::Typename => true,
            Property::InsideConstContext => v.hir_id().is_some(),
            Property::ItemIdent => v.item_id().is_some(),
            Property::DefIdent | Property::DefPath => v.def_id().is_some(),
            Property::TyAsString => v.as_ty().is_some(),
            Property::Stability(_) => v.as_stability().is_some(),
            Property::ConstStability(_) | Property::ConstPromotable => v.as_const_stability().is_some(),
        }
    }
}

/// Starts resolving property `p` on `v`: the value itself for `Typename`,
/// else the query whose answer gives it. The property must apply to the
/// vertex; asking otherwise is a broken invariant of the caller.
pub fn start_property(p: Property, v: &Vertex) -> (r: PropertyStep)
    requires
        property_applies(p, *v),
    ensures
        p is Typename ==> (r matches PropertyStep::Known(Value::String(s)) && s@
            == v.type_of().name()),
        p !is Typename ==> (r matches PropertyStep::Ask(q) && property_query(p, *v) == Ok::<
            SessionQuery,
            AdapterError,
        >(q)),
{
    match p {
        Property::Typename => PropertyStep::Known(Value::String(String::from_str(v.typename()))),
        Property::InsideConstContext => PropertyStep::Ask(SessionQuery::InsideConstContext(v.hir_id().unwrap())),
        Property::ItemIdent => PropertyStep::Ask(SessionQuery::ItemIdent(v.item_id().unwrap())),
        Property::DefIdent => PropertyStep::Ask(SessionQuery::DefIdent(v.def_id().unwrap())),
        Property::DefPath => PropertyStep::Ask(SessionQuery::DefPath(v.def_id().unwrap())),
        Property::TyAsString => PropertyStep::Ask(SessionQuery::NodeType(v.as_ty().unwrap())),
        Property::Stability(_) => PropertyStep::Ask(SessionQuery::Stability(v.as_stability().unwrap())),
        Property::ConstStability(_) | Property::ConstPromotable => PropertyStep::Ask(
            SessionQuery::ConstStability(v.as_const_stability().unwrap()),
        ),
    }
}

/// Reads one field of a stability record, null where the field belongs to
/// the record's other branch.
pub fn stability_field(level: StabilityLevel, feature: String, f: StabilityField) -> (r: Value)
    ensures
        r == stability_value(level, feature, f),
{
    match f {
        StabilityField::Feature => Value::String(feature),
        StabilityField::Stable => Value::Boolean(
            match level {
                StabilityLevel::Stable { .. } => true,
                _ => false,
            },
        ),
        StabilityField::Reason => match level {
            StabilityLevel::Unstable { reason: Some(r), .. } => Value::String(r),
            _ => Value::Null,
        },
        StabilityField::Issue => match level {
            StabilityLevel::Unstable { issue: Some(n), .. } => Value::Uint64(n as u64),
            _ => Value::Null,
        },
        StabilityField::Soft => match level {
            StabilityLevel::Unstable { is_soft, .. } => Value::Boolean(is_soft),
            _ => Value::Null,
        },
        StabilityField::ImpliedBy => match level {
            StabilityLevel::Unstable { implied_by: Some(s), .. } => Value::String(s),
            _ => Value::Null,
        },
        StabilityField::Since => match level {
            StabilityLevel::Stable { since: StableSince::Version(s), .. } => Value::String(s),
            _ => Value::Null,
        },
        StabilityField::AllowedThroughUnstableModules => match level {
            StabilityLevel::Stable { allowed_through_unstable_modules, .. } => Value::Boolean(
                allowed_through_unstable_modules,
            ),
            _ => Value::Null,
        },
    }
}

/// Whether `answer` is a well-formed answer for property `p`: of the matching
/// kind, and carrying the record that a stability vertex promises.
pub fn property_answer_fits(p: Property, answer: &SessionAnswer) -> (r: bool)
    ensures
        r == property_from(p, *answer) is Ok,
{
    match (p, answer) {
        (Property::InsideConstContext, SessionAnswer::Bool(_)) => true,
        (Property::ItemIdent, SessionAnswer::Text(_)) => true,
        (Property::DefPath, SessionAnswer::Text(_)) => true,
        (Property::TyAsString, SessionAnswer::Text(_)) => true,
        (Property::DefIdent, SessionAnswer::OptText(_)) => true,
        (Property::Stability(_), SessionAnswer::Stability(o)) => o.is_some(),
        (Property::ConstStability(_), SessionAnswer::ConstStability(o)) => o.is_some(),
        (Property::ConstPromotable, SessionAnswer::ConstStability(o)) => o.is_some(),
        _ => false,
    }
}

/// Finishes resolving a property from the session's answer, which must fit
/// the property (see `property_answer_fits`).
pub fn complete_property(p: Property, answer: SessionAnswer) -> (r: Value)
    requires
        property_from(p, answer) is Ok,
    ensures
        property_from(p, answer) == Ok::<Value, AdapterError>(r),
{
    match (p, answer) {
        (Property::InsideConstContext, SessionAnswer::Bool(b)) => Value::Boolean(b),
        (Property::ItemIdent, SessionAnswer::Text(s)) => Value::String(s),
        (Property::DefPath, SessionAnswer::Text(s)) => Value::String(s),
        (Property::TyAsString, SessionAnswer::Text(s)) => Value::String(s),
        (Property::DefIdent, SessionAnswer::OptText(o)) => match o {
            Some(s) => Value::String(s),
            None => Value::Null,
        },
        (Property::Stability(f), SessionAnswer::Stability(o)) => match o {
            Some(rec) => stability_field(rec.level, rec.feature, f),
            None => unreached(),
        },
        (Property::ConstStability(f), SessionAnswer::ConstStability(o)) => match o {
            Some(rec) => stability_field(rec.level, rec.feature, f),
            None => unreached(),
        },
        (Property::ConstPromotable, SessionAnswer::ConstStability(o)) => match o {
            Some(rec) => Value::Boolean(rec.promotable),
            None => unreached(),
        },
        _ => unreached(),
    }
}

} // verus!
