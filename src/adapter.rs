use vstd::prelude::*;

use crate::properties::{Property, StabilityField};
use crate::schema::{
    declares_edge, declares_property, edge_declared, edge_named, find_edge, find_property,
    find_type, property_declared, property_named, type_named, EdgeName, PropertyName, TypeName,
};
use crate::session::AdapterError;
use crate::text::str_eq;
use crate::vertex::Vertex;

verus! {

/// The schema that the adapter answers for, in the query engine's schema language.
pub const SCHEMA_TEXT: &'static str = "schema {
    query: RootSchemaQuery
}
directive @filter(op: String!, value: [String!]) repeatable on FIELD | INLINE_FRAGMENT
directive @tag(name: String) on FIELD
directive @output(name: String) on FIELD
directive @optional on FIELD
directive @recurse(depth: Int!) on FIELD
directive @fold on FIELD
directive @transform(op: String!) on FIELD

type RootSchemaQuery {
    Crate: Crate!
}

type Crate {
    item: [Item!]!
    expr: [Expr!]!
}

interface Node {
    inside_const_context: Boolean!
    parent: Node
}

interface Item implements Node {
    inside_const_context: Boolean!
    ident: String!
    parent: Node
}

type Fn implements Node & Item {
    inside_const_context: Boolean!
    ident: String!
    parent: Node
    body: FnBody!
}

interface Body implements Node {
    inside_const_context: Boolean!
    parent: Node
    value: Expr!
}

type FnBody implements Node & Body {
    inside_const_context: Boolean!
    parent: Node
    value: Expr!
}

interface Expr implements Node {
    inside_const_context: Boolean!
    parent: Node
    type: Ty!
}

type Block implements Node & Expr {
    inside_const_context: Boolean!
    parent: Node
    type: Ty!
    statements: [Statement!]!
}

type MethodCall implements Node & Expr {
    inside_const_context: Boolean!
    parent: Node
    type: Ty!
}

interface Statement implements Node {
    inside_const_context: Boolean!
    parent: Node
}

type LocalStatement implements Node & Statement {
    inside_const_context: Boolean!
    parent: Node
    init: Expr
}

type Ty {
    as_string: String!
    def: Def
}

type Def {
    ident: String
    path: String!
    stability: Stability
    const_stability: ConstStability
}

type Stability {
    feature: String!
    stable: Boolean!
    reason: String
    issue: Int
    soft: Boolean
    implied_by: String
    since: String
    allowed_through_unstable_modules: Boolean
}

type ConstStability {
    feature: String!
    stable: Boolean!
    promotable: Boolean!
    reason: String
    issue: Int
    soft: Boolean
    implied_by: String
    since: String
    allowed_through_unstable_modules: Boolean
}
";

/// The edge that `edge` names on type `ty`, when the schema declares it there.
pub open spec fn edge_plan(ty: Seq<char>, edge: Seq<char>) -> Result<EdgeName, AdapterError> {
    match type_named(ty) {
        None => Err(AdapterError::UnknownType),
        Some(t) => match edge_named(edge) {
            Some(e) => if declares_edge(t, e) {
                Ok(e)
            } else {
                Err(AdapterError::UnknownEdge)
            },
            None => Err(AdapterError::UnknownEdge),
        },
    }
}

/// The stability field that a property name reads.
pub open spec fn field_of(p: PropertyName) -> StabilityField {
    match p {
        PropertyName::Stable => StabilityField::Stable,
        PropertyName::Reason => StabilityField::Reason,
        PropertyName::Issue => StabilityField::Issue,
        PropertyName::Soft => StabilityField::Soft,
        PropertyName::ImpliedBy => StabilityField::ImpliedBy,
        PropertyName::Since => StabilityField::Since,
        PropertyName::AllowedThroughUnstableModules => StabilityField::AllowedThroughUnstableModules,
        _ => StabilityField::Feature,
    }
}

/// The handler of a declared (type, property) pair.
pub open spec fn property_handler(t: TypeName, p: PropertyName) -> Property {
    match p {
        PropertyName::InsideConstContext => Property::InsideConstContext,
        PropertyName::Ident => if t == TypeName::Def {
            Property::DefIdent
        } else {
            Property::ItemIdent
        },
        PropertyName::Path => Property::DefPath,
        PropertyName::AsString => Property::TyAsString,
        PropertyName::Promotable => Property::ConstPromotable,
        _ => if t == TypeName::ConstStability {
            Property::ConstStability(field_of(p))
        } else {
            Property::Stability(field_of(p))
        },
    }
}

/// The property that `prop` names on type `ty`: `__typename` on any type,
/// else one that the schema declares there.
pub open spec fn property_plan(ty: Seq<char>, prop: Seq<char>) -> Result<Property, AdapterError> {
    if prop == "__typename"@ {
        Ok(Property::Typename)
    } else {
        match type_named(ty) {
            None => Err(AdapterError::UnknownType),
            Some(t) => match property_named(prop) {
                Some(p) => if declares_property(t, p) {
                    Ok(property_handler(t, p))
                } else {
                    Err(AdapterError::UnknownProperty)
                },
                None => Err(AdapterError::UnknownProperty),
            },
        }
    }
}

/// Whether the type named `sub` is the type named `sup` or one of its
/// declared descendants. `sup` must name a declared type.
pub open spec fn subtype_answer(sup: Seq<char>, sub: Seq<char>) -> bool
    recommends
        type_named(sup) is Some,
{
    match type_named(sub) {
        Some(s) => s.is_subtype_of(type_named(sup)->0),
        None => false,
    }
}

/// Whether `name` is a type that the schema declares.
pub fn type_declared(name: &str) -> (r: bool)
    ensures
        r == type_named(name@) is Some,
{
    find_type(name).is_some()
}

/// Whether `sub` is `super_` or one of its declared descendants. Asking about
/// an undeclared `super_` is a configuration bug, left out here.
pub fn is_subtype(super_: &str, sub: &str) -> (r: bool)
    requires
        type_named(super_@) is Some,
    ensures
        r == subtype_answer(super_@, sub@),
{
    let t = find_type(super_).unwrap();
    match find_type(sub) {
        Some(s) => s.subtype_of(t),
        None => false,
    }
}

fn find_edge_plan(ty: &str, edge: &str) -> (r: Result<EdgeName, AdapterError>)
    ensures
        r == edge_plan(ty@, edge@),
{
    match find_type(ty) {
        None => Err(AdapterError::UnknownType),
        Some(t) => match find_edge(edge) {
            Some(e) => if edge_declared(t, e) {
                Ok(e)
            } else {
                Err(AdapterError::UnknownEdge)
            },
            None => Err(AdapterError::UnknownEdge),
        },
    }
}

fn stability_field_of(p: PropertyName) -> (r: StabilityField)
    ensures
        r == field_of(p),
{
    match p {
        PropertyName::Stable => StabilityField::Stable,
        PropertyName::Reason => StabilityField::Reason,
        PropertyName::Issue => StabilityField::Issue,
        PropertyName::Soft => StabilityField::Soft,
        PropertyName::ImpliedBy => StabilityField::ImpliedBy,
        PropertyName::Since => StabilityField::Since,
        PropertyName::AllowedThroughUnstableModules => StabilityField::AllowedThroughUnstableModules,
        _ => StabilityField::Feature,
    }
}

fn find_property_plan(ty: &str, prop: &str) -> (r: Result<Property, AdapterError>)
    ensures
        r == property_plan(ty@, prop@),
{
    if str_eq(prop, "__typename") {
        return Ok(Property::Typename);
    }
    match find_type(ty) {
        None => Err(AdapterError::UnknownType),
        Some(t) => match find_property(prop) {
            Some(p) => if property_declared(t, p) {
                Ok(
                    match p {
                        PropertyName::InsideConstContext => Property::InsideConstContext,
                        PropertyName::Ident => if t == TypeName::Def {
                            Property::DefIdent
                        } else {
                            Property::ItemIdent
                        },
                        PropertyName::Path => Property::DefPath,
                        PropertyName::AsString => Property::TyAsString,
                        PropertyName::Promotable => Property::ConstPromotable,
                        _ => if t == TypeName::ConstStability {
                            Property::ConstStability(stability_field_of(p))
                        } else {
                            Property::Stability(stability_field_of(p))
                        },
                    },
                )
            } else {
                Err(AdapterError::UnknownProperty)
            },
            None => Err(AdapterError::UnknownProperty),
        },
    }
}

/// Answers the query engine's requests about the graph. The compiler session
/// stays with the caller: a request either is answered at once or names the
/// session query that it needs.
pub struct Adapter {}

impl Adapter {
    pub fn new() -> (r: Adapter) {
        Adapter {  }
    }

    /// The schema text that every type, edge and property name here comes from.
    pub fn schema() -> (r: &'static str)
        ensures
            r@ == SCHEMA_TEXT@,
    {
        SCHEMA_TEXT
    }

    /// Whether `edge_name` is a root edge of the schema: only `Crate` is.
    pub fn root_edge_declared(&self, edge_name: &str) -> (r: bool)
        ensures
            r == (edge_name@ == "Crate"@),
    {
        str_eq(edge_name, "Crate")
    }

    /// The starting vertices of the root edge: the one `Crate` vertex.
    pub fn resolve_starting_vertices(&self, edge_name: &str) -> (r: Vec<Vertex>)
        requires
            edge_name@ == "Crate"@,
        ensures
            r@ == seq![Vertex::Crate],
    {
        vec![Vertex::Crate]
    }

    /// Whether the schema declares property `property_name` on type
    /// `vertex_type_name` (`__typename` is declared on every type).
    pub fn property_declared_by_name(&self, vertex_type_name: &str, property_name: &str) -> (r:
        bool)
        ensures
            r == property_plan(vertex_type_name@, property_name@) is Ok,
    {
        find_property_plan(vertex_type_name, property_name).is_ok()
    }

    /// The handler of property `property_name` on type `vertex_type_name`,
    /// which the schema must declare there.
    pub fn plan_property(&self, vertex_type_name: &str, property_name: &str) -> (r: Property)
        requires
            property_plan(vertex_type_name@, property_name@) is Ok,
        ensures
            property_plan(vertex_type_name@, property_name@) == Ok::<Property, AdapterError>(r),
    {
        match find_property_plan(vertex_type_name, property_name) {
            Ok(p) => p,
            Err(_) => unreached(),
        }
    }

    /// Whether the schema declares edge `edge_name` on type `vertex_type_name`.
    pub fn edge_declared_by_name(&self, vertex_type_name: &str, edge_name: &str) -> (r: bool)
        ensures
            r == edge_plan(vertex_type_name@, edge_name@) is Ok,
    {
        find_edge_plan(vertex_type_name, edge_name).is_ok()
    }

    /// The edge `edge_name` on type `vertex_type_name`, which the schema must
    /// declare there.
    pub fn plan_edge(&self, vertex_type_name: &str, edge_name: &str) -> (r: EdgeName)
        requires
            edge_plan(vertex_type_name@, edge_name@) is Ok,
        ensures
            edge_plan(vertex_type_name@, edge_name@) == Ok::<EdgeName, AdapterError>(r),
    {
        match find_edge_plan(vertex_type_name, edge_name) {
            Ok(e) => e,
            Err(_) => unreached(),
        }
    }

    /// Whether `vertex`, whatever type it was reached as, is an instance of
    /// `coerce_to_type`, which must be a declared type.
    pub fn resolve_coercion(&self, vertex: &Vertex, coerce_to_type: &str) -> (r: bool)
        requires
            type_named(coerce_to_type@) is Some,
        ensures
            r == vertex.type_of().is_subtype_of(type_named(coerce_to_type@)->0),
    {
        vertex.vertex_type().subtype_of(find_type(coerce_to_type).unwrap())
    }
}

} // verus!
