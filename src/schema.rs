use vstd::prelude::*;

use crate::text::str_eq;

verus! {

/// The vertex types that the schema declares.
#[derive(Debug, Clone, Copy, PartialEq, Eq, Structural, Hash)]
pub enum TypeName {
    Block,
    Body,
    ConstStability,
    Crate,
    Def,
    Expr,
    Fn,
    FnBody,
    Item,
    LocalStatement,
    MethodCall,
    Node,
    Statement,
    Stability,
    Ty,
}

impl TypeName {
    /// The type's name as it stands in the schema text.
    pub open spec fn name(self) -> Seq<char> {
        match self {
            TypeName::Block => "Block"@,
            TypeName::Body => "Body"@,
            TypeName::ConstStability => "ConstStability"@,
            TypeName::Crate => "Crate"@,
            TypeName::Def => "Def"@,
            TypeName::Expr => "Expr"@,
            TypeName::Fn => "Fn"@,
            TypeName::FnBody => "FnBody"@,
            TypeName::Item => "Item"@,
            TypeName::LocalStatement => "LocalStatement"@,
            TypeName::MethodCall => "MethodCall"@,
            TypeName::Node => "Node"@,
            TypeName::Statement => "Statement"@,
            TypeName::Stability => "Stability"@,
            TypeName::Ty => "Ty"@,
        }
    }

    pub fn as_str(&self) -> (r: &'static str)
        ensures
            r@ == self.name(),
    {
        match self {
            TypeName::Block => "Block",
            TypeName::Body => "Body",
            TypeName::ConstStability => "ConstStability",
            TypeName::Crate => "Crate",
            TypeName::Def => "Def",
            TypeName::Expr => "Expr",
            TypeName::Fn => "Fn",
            TypeName::FnBody => "FnBody",
            TypeName::Item => "Item",
            TypeName::LocalStatement => "LocalStatement",
            TypeName::MethodCall => "MethodCall",
            TypeName::Node => "Node",
            TypeName::Statement => "Statement",
            TypeName::Stability => "Stability",
            TypeName::Ty => "Ty",
        }
    }

    /// The interfaces that the type declares it implements (`type Fn implements Node & Item`).
    pub open spec fn implements(self, sup: TypeName) -> bool {
        match self {
            TypeName::Item | TypeName::Body | TypeName::Expr | TypeName::Statement => sup
                == TypeName::Node,
            TypeName::Fn => sup == TypeName::Node || sup == TypeName::Item,
            TypeName::FnBody => sup == TypeName::Node || sup == TypeName::Body,
            TypeName::Block | TypeName::MethodCall => sup == TypeName::Node || sup
                == TypeName::Expr,
            TypeName::LocalStatement => sup == TypeName::Node || sup == TypeName::Statement,
            _ => false,
        }
    }

    /// `self` is `sup` or one of its declared descendants.
    pub open spec fn is_subtype_of(self, sup: TypeName) -> bool {
        self == sup || self.implements(sup)
    }

    pub fn subtype_of(&self, sup: TypeName) -> (r: bool)
        ensures
            r == self.is_subtype_of(sup),
    {
        match self {
            TypeName::Item | TypeName::Body | TypeName::Expr | TypeName::Statement => {
                sup == *self || sup == TypeName::Node
            },
            TypeName::Fn => sup == TypeName::Fn || sup == TypeName::Node || sup == TypeName::Item,
            TypeName::FnBody => sup == TypeName::FnBody || sup == TypeName::Node || sup
                == TypeName::Body,
            TypeName::Block | TypeName::MethodCall => sup == *self || sup == TypeName::Node || sup
                == TypeName::Expr,
            TypeName::LocalStatement => sup == TypeName::LocalStatement || sup == TypeName::Node
                || sup == TypeName::Statement,
            _ => sup == *self,
        }
    }
}

/// The declared type with the given name, if there is one.
pub open spec fn type_named(s: Seq<char>) -> Option<TypeName> {
    if s == "Block"@ {
        Some(TypeName::Block)
    } else if s == "Body"@ {
        Some(TypeName::Body)
    } else if s == "ConstStability"@ {
        Some(TypeName::ConstStability)
    } else if s == "Crate"@ {
        Some(TypeName::Crate)
    } else if s == "Def"@ {
        Some(TypeName::Def)
    } else if s == "Expr"@ {
        Some(TypeName::Expr)
    } else if s == "Fn"@ {
        Some(TypeName::Fn)
    } else if s == "FnBody"@ {
        Some(TypeName::FnBody)
    } else if s == "Item"@ {
        Some(TypeName::Item)
    } else if s == "LocalStatement"@ {
        Some(TypeName::LocalStatement)
    } else if s == "MethodCall"@ {
        Some(TypeName::MethodCall)
    } else if s == "Node"@ {
        Some(TypeName::Node)
    } else if s == "Statement"@ {
        Some(TypeName::Statement)
    } else if s == "Stability"@ {
        Some(TypeName::Stability)
    } else if s == "Ty"@ {
        Some(TypeName::Ty)
    } else {
        None
    }
}

/// Each member is found again under its own name.
pub proof fn lemma_type_named(m: TypeName)
    ensures
        type_named(m.name()) == Some(m),
{
    reveal_strlit("Block");
    reveal_strlit("Body");
    reveal_strlit("ConstStability");
    reveal_strlit("Crate");
    reveal_strlit("Def");
    reveal_strlit("Expr");
    reveal_strlit("Fn");
    reveal_strlit("FnBody");
    reveal_strlit("Item");
    reveal_strlit("LocalStatement");
    reveal_strlit("MethodCall");
    reveal_strlit("Node");
    reveal_strlit("Statement");
    reveal_strlit("Stability");
    reveal_strlit("Ty");
    assert("Block"@.len() == 5);
    assert("Body"@.len() == 4);
    assert("ConstStability"@.len() == 14);
    assert("Crate"@.len() == 5);
    assert("Def"@.len() == 3);
    assert("Expr"@.len() == 4);
    assert("Fn"@.len() == 2);
    assert("FnBody"@.len() == 6);
    assert("Item"@.len() == 4);
    assert("LocalStatement"@.len() == 14);
    assert("MethodCall"@.len() == 10);
    assert("Node"@.len() == 4);
    assert("Statement"@.len() == 9);
    assert("Stability"@.len() == 9);
    assert("Ty"@.len() == 2);
    match m {
        TypeName::Block => {},
        TypeName::Body => {},
        TypeName::ConstStability => {},
        TypeName::Crate => { assert("Crate"@[0] != "Block"@[0]); },
        TypeName::Def => {},
        TypeName::Expr => { assert("Expr"@[0] != "Body"@[0]); },
        TypeName::Fn => {},
        TypeName::FnBody => {},
        TypeName::Item => { assert("Item"@[0] != "Body"@[0]); assert("Item"@[0] != "Expr"@[0]); },
        TypeName::LocalStatement => { assert("LocalStatement"@[0] != "ConstStability"@[0]); },
        TypeName::MethodCall => {},
        TypeName::Node => { assert("Node"@[0] != "Body"@[0]); assert("Node"@[0] != "Expr"@[0]); assert("Node"@[0] != "Item"@[0]); },
        TypeName::Statement => {},
        TypeName::Stability => { assert("Stability"@[3] != "Statement"@[3]); },
        TypeName::Ty => { assert("Ty"@[0] != "Fn"@[0]); },
    }
}

pub fn find_type(s: &str) -> (r: Option<TypeName>)
    ensures
        r == type_named(s@),
{
    if str_eq(s, "Block") {
        Some(TypeName::Block)
    } else if str_eq(s, "Body") {
        Some(TypeName::Body)
    } else if str_eq(s, "ConstStability") {
        Some(TypeName::ConstStability)
    } else if str_eq(s, "Crate") {
        Some(TypeName::Crate)
    } else if str_eq(s, "Def") {
        Some(TypeName::Def)
    } else if str_eq(s, "Expr") {
        Some(TypeName::Expr)
    } else if str_eq(s, "Fn") {
        Some(TypeName::Fn)
    } else if str_eq(s, "FnBody") {
        Some(TypeName::FnBody)
    } else if str_eq(s, "Item") {
        Some(TypeName::Item)
    } else if str_eq(s, "LocalStatement") {
        Some(TypeName::LocalStatement)
    } else if str_eq(s, "MethodCall") {
        Some(TypeName::MethodCall)
    } else if str_eq(s, "Node") {
        Some(TypeName::Node)
    } else if str_eq(s, "Statement") {
        Some(TypeName::Statement)
    } else if str_eq(s, "Stability") {
        Some(TypeName::Stability)
    } else if str_eq(s, "Ty") {
        Some(TypeName::Ty)
    } else {
        None
    }
}


/// The edge names that the schema declares.
#[derive(Debug, Clone, Copy, PartialEq, Eq, Structural, Hash)]
pub enum EdgeName {
    Parent,
    Item,
    Expr,
    Body,
    Value,
    Statements,
    Type,
    Init,
    Stability,
    ConstStability,
    Def,
}

impl EdgeName {
    /// The name as it stands in the schema text.
    pub open spec fn name(self) -> Seq<char> {
        match self {
            EdgeName::Parent => "parent"@,
            EdgeName::Item => "item"@,
            EdgeName::Expr => "expr"@,
            EdgeName::Body => "body"@,
            EdgeName::Value => "value"@,
            EdgeName::Statements => "statements"@,
            EdgeName::Type => "type"@,
            EdgeName::Init => "init"@,
            EdgeName::Stability => "stability"@,
            EdgeName::ConstStability => "const_stability"@,
            EdgeName::Def => "def"@,
        }
    }

    pub fn as_str(&self) -> (r: &'static str)
        ensures
            r@ == self.name(),
    {
        match self {
            EdgeName::Parent => "parent",
            EdgeName::Item => "item",
            EdgeName::Expr => "expr",
            EdgeName::Body => "body",
            EdgeName::Value => "value",
            EdgeName::Statements => "statements",
            EdgeName::Type => "type",
            EdgeName::Init => "init",
            EdgeName::Stability => "stability",
            EdgeName::ConstStability => "const_stability",
            EdgeName::Def => "def",
        }
    }
}

/// The member with the given name, if there is one.
pub open spec fn edge_named(s: Seq<char>) -> Option<EdgeName> {
    if s == "parent"@ {
        Some(EdgeName::Parent)
    }     else if s == "item"@ {
        Some(EdgeName::Item)
    }     else if s == "expr"@ {
        Some(EdgeName::Expr)
    }     else if s == "body"@ {
        Some(EdgeName::Body)
    }     else if s == "value"@ {
        Some(EdgeName::Value)
    }     else if s == "statements"@ {
        Some(EdgeName::Statements)
    }     else if s == "type"@ {
        Some(EdgeName::Type)
    }     else if s == "init"@ {
        Some(EdgeName::Init)
    }     else if s == "stability"@ {
        Some(EdgeName::Stability)
    }     else if s == "const_stability"@ {
        Some(EdgeName::ConstStability)
    }     else if s == "def"@ {
        Some(EdgeName::Def)
    } else {
        None
    }
}

/// Each member is found again under its own name.
pub proof fn lemma_edge_named(m: EdgeName)
    ensures
        edge_named(m.name()) == Some(m),
{
    reveal_strlit("parent");
    reveal_strlit("item");
    reveal_strlit("expr");
    reveal_strlit("body");
    reveal_strlit("value");
    reveal_strlit("statements");
    reveal_strlit("type");
    reveal_strlit("init");
    reveal_strlit("stability");
    reveal_strlit("const_stability");
    reveal_strlit("def");
    assert("parent"@.len() == 6);
    assert("item"@.len() == 4);
    assert("expr"@.len() == 4);
    assert("body"@.len() == 4);
    assert("value"@.len() == 5);
    assert("statements"@.len() == 10);
    assert("type"@.len() == 4);
    assert("init"@.len() == 4);
    assert("stability"@.len() == 9);
    assert("const_stability"@.len() == 15);
    assert("def"@.len() == 3);
    match m {
        EdgeName::Parent => {},
        EdgeName::Item => {},
        EdgeName::Expr => { assert("expr"@[0] != "item"@[0]); },
        EdgeName::Body => { assert("body"@[0] != "item"@[0]); assert("body"@[0] != "expr"@[0]); },
        EdgeName::Value => {},
        EdgeName::Statements => {},
        EdgeName::Type => { assert("type"@[0] != "item"@[0]); assert("type"@[0] != "expr"@[0]); assert("type"@[0] != "body"@[0]); },
        EdgeName::Init => { assert("init"@[1] != "item"@[1]); assert("init"@[0] != "expr"@[0]); assert("init"@[0] != "body"@[0]); assert("init"@[0] != "type"@[0]); },
        EdgeName::Stability => {},
        EdgeName::ConstStability => {},
        EdgeName::Def => {},
    }
}

pub fn find_edge(s: &str) -> (r: Option<EdgeName>)
    ensures
        r == edge_named(s@),
{
    if str_eq(s, "parent") {
        Some(EdgeName::Parent)
    }     else if str_eq(s, "item") {
        Some(EdgeName::Item)
    }     else if str_eq(s, "expr") {
        Some(EdgeName::Expr)
    }     else if str_eq(s, "body") {
        Some(EdgeName::Body)
    }     else if str_eq(s, "value") {
        Some(EdgeName::Value)
    }     else if str_eq(s, "statements") {
        Some(EdgeName::Statements)
    }     else if str_eq(s, "type") {
        Some(EdgeName::Type)
    }     else if str_eq(s, "init") {
        Some(EdgeName::Init)
    }     else if str_eq(s, "stability") {
        Some(EdgeName::Stability)
    }     else if str_eq(s, "const_stability") {
        Some(EdgeName::ConstStability)
    }     else if str_eq(s, "def") {
        Some(EdgeName::Def)
    } else {
        None
    }
}

/// The property names that the schema declares.
#[derive(Debug, Clone, Copy, PartialEq, Eq, Structural, Hash)]
pub enum PropertyName {
    InsideConstContext,
    Ident,
    Path,
    AsString,
    Feature,
    Stable,
    Promotable,
    Reason,
    Issue,
    Soft,
    ImpliedBy,
    Since,
    AllowedThroughUnstableModules,
}

impl PropertyName {
    /// The name as it stands in the schema text.
    pub open spec fn name(self) -> Seq<char> {
        match self {
            PropertyName::InsideConstContext => "inside_const_context"@,
            PropertyName::Ident => "ident"@,
            PropertyName::Path => "path"@,
            PropertyName::AsString => "as_string"@,
            PropertyName::Feature => "feature"@,
            PropertyName::Stable => "stable"@,
            PropertyName::Promotable => "promotable"@,
            PropertyName::Reason => "reason"@,
            PropertyName::Issue => "issue"@,
            PropertyName::Soft => "soft"@,
            PropertyName::ImpliedBy => "implied_by"@,
            PropertyName::Since => "since"@,
            PropertyName::AllowedThroughUnstableModules => "allowed_through_unstable_modules"@,
        }
    }

    pub fn as_str(&self) -> (r: &'static str)
        ensures
            r@ == self.name(),
    {
        match self {
            PropertyName::InsideConstContext => "inside_const_context",
            PropertyName::Ident => "ident",
            PropertyName::Path => "path",
            PropertyName::AsString => "as_string",
            PropertyName::Feature => "feature",
            PropertyName::Stable => "stable",
            PropertyName::Promotable => "promotable",
            PropertyName::Reason => "reason",
            PropertyName::Issue => "issue",
            PropertyName::Soft => "soft",
            PropertyName::ImpliedBy => "implied_by",
            PropertyName::Since => "since",
            PropertyName::AllowedThroughUnstableModules => "allowed_through_unstable_modules",
        }
    }
}

/// The member with the given name, if there is one.
pub open spec fn property_named(s: Seq<char>) -> Option<PropertyName> {
    if s == "inside_const_context"@ {
        Some(PropertyName::InsideConstContext)
    }     else if s == "ident"@ {
        Some(PropertyName::Ident)
    }     else if s == "path"@ {
        Some(PropertyName::Path)
    }     else if s == "as_string"@ {
        Some(PropertyName::AsString)
    }     else if s == "feature"@ {
        Some(PropertyName::Feature)
    }     else if s == "stable"@ {
        Some(PropertyName::Stable)
    }     else if s == "promotable"@ {
        Some(PropertyName::Promotable)
    }     else if s == "reason"@ {
        Some(PropertyName::Reason)
    }     else if s == "issue"@ {
        Some(PropertyName::Issue)
    }     else if s == "soft"@ {
        Some(PropertyName::Soft)
    }     else if s == "implied_by"@ {
        Some(PropertyName::ImpliedBy)
    }     else if s == "since"@ {
        Some(PropertyName::Since)
    }     else if s == "allowed_through_unstable_modules"@ {
        Some(PropertyName::AllowedThroughUnstableModules)
    } else {
        None
    }
}

/// Each member is found again under its own name.
pub proof fn lemma_property_named(m: PropertyName)
    ensures
        property_named(m.name()) == Some(m),
{
    reveal_strlit("inside_const_context");
    reveal_strlit("ident");
    reveal_strlit("path");
    reveal_strlit("as_string");
    reveal_strlit("feature");
    reveal_strlit("stable");
    reveal_strlit("promotable");
    reveal_strlit("reason");
    reveal_strlit("issue");
    reveal_strlit("soft");
    reveal_strlit("implied_by");
    reveal_strlit("since");
    reveal_strlit("allowed_through_unstable_modules");
    assert("inside_const_context"@.len() == 20);
    assert("ident"@.len() == 5);
    assert("path"@.len() == 4);
    assert("as_string"@.len() == 9);
    assert("feature"@.len() == 7);
    assert("stable"@.len() == 6);
    assert("promotable"@.len() == 10);
    assert("reason"@.len() == 6);
    assert("issue"@.len() == 5);
    assert("soft"@.len() == 4);
    assert("implied_by"@.len() == 10);
    assert("since"@.len() == 5);
    assert("allowed_through_unstable_modules"@.len() == 32);
    match m {
        PropertyName::InsideConstContext => {},
        PropertyName::Ident => {},
        PropertyName::Path => {},
        PropertyName::AsString => {},
        PropertyName::Feature => {},
        PropertyName::Stable => {},
        PropertyName::Promotable => {},
        PropertyName::Reason => { assert("reason"@[0] != "stable"@[0]); },
        PropertyName::Issue => { assert("issue"@[1] != "ident"@[1]); },
        PropertyName::Soft => { assert("soft"@[0] != "path"@[0]); },
        PropertyName::ImpliedBy => { assert("implied_by"@[0] != "promotable"@[0]); },
        PropertyName::Since => { assert("since"@[0] != "ident"@[0]); assert("since"@[0] != "issue"@[0]); },
        PropertyName::AllowedThroughUnstableModules => {},
    }
}

pub fn find_property(s: &str) -> (r: Option<PropertyName>)
    ensures
        r == property_named(s@),
{
    if str_eq(s, "inside_const_context") {
        Some(PropertyName::InsideConstContext)
    }     else if str_eq(s, "ident") {
        Some(PropertyName::Ident)
    }     else if str_eq(s, "path") {
        Some(PropertyName::Path)
    }     else if str_eq(s, "as_string") {
        Some(PropertyName::AsString)
    }     else if str_eq(s, "feature") {
        Some(PropertyName::Feature)
    }     else if str_eq(s, "stable") {
        Some(PropertyName::Stable)
    }     else if str_eq(s, "promotable") {
        Some(PropertyName::Promotable)
    }     else if str_eq(s, "reason") {
        Some(PropertyName::Reason)
    }     else if str_eq(s, "issue") {
        Some(PropertyName::Issue)
    }     else if str_eq(s, "soft") {
        Some(PropertyName::Soft)
    }     else if str_eq(s, "implied_by") {
        Some(PropertyName::ImpliedBy)
    }     else if str_eq(s, "since") {
        Some(PropertyName::Since)
    }     else if str_eq(s, "allowed_through_unstable_modules") {
        Some(PropertyName::AllowedThroughUnstableModules)
    } else {
        None
    }
}

/// The edges that the schema declares on each type, inherited ones included.
pub open spec fn declares_edge(t: TypeName, e: EdgeName) -> bool {
    match t {
        TypeName::Node | TypeName::Item | TypeName::Statement => e == EdgeName::Parent,
        TypeName::Fn => e == EdgeName::Parent || e == EdgeName::Body,
        TypeName::Body | TypeName::FnBody => e == EdgeName::Parent || e == EdgeName::Value,
        TypeName::Expr | TypeName::MethodCall => e == EdgeName::Parent || e == EdgeName::Type,
        TypeName::Block => e == EdgeName::Parent || e == EdgeName::Statements || e
            == EdgeName::Type,
        TypeName::LocalStatement => e == EdgeName::Parent || e == EdgeName::Init,
        TypeName::Crate => e == EdgeName::Item || e == EdgeName::Expr,
        TypeName::Def => e == EdgeName::Stability || e == EdgeName::ConstStability,
        TypeName::Ty => e == EdgeName::Def,
        TypeName::Stability | TypeName::ConstStability => false,
    }
}

pub fn edge_declared(t: TypeName, e: EdgeName) -> (r: bool)
    ensures
        r == declares_edge(t, e),
{
    match t {
        TypeName::Node | TypeName::Item | TypeName::Statement => e == EdgeName::Parent,
        TypeName::Fn => e == EdgeName::Parent || e == EdgeName::Body,
        TypeName::Body | TypeName::FnBody => e == EdgeName::Parent || e == EdgeName::Value,
        TypeName::Expr | TypeName::MethodCall => e == EdgeName::Parent || e == EdgeName::Type,
        TypeName::Block => e == EdgeName::Parent || e == EdgeName::Statements || e
            == EdgeName::Type,
        TypeName::LocalStatement => e == EdgeName::Parent || e == EdgeName::Init,
        TypeName::Crate => e == EdgeName::Item || e == EdgeName::Expr,
        TypeName::Def => e == EdgeName::Stability || e == EdgeName::ConstStability,
        TypeName::Ty => e == EdgeName::Def,
        TypeName::Stability | TypeName::ConstStability => false,
    }
}

/// Whether a property belongs to the stability-record family.
pub open spec fn is_stability_field(p: PropertyName) -> bool {
    match p {
        PropertyName::Feature | PropertyName::Stable | PropertyName::Reason | PropertyName::Issue
        | PropertyName::Soft | PropertyName::ImpliedBy | PropertyName::Since
        | PropertyName::AllowedThroughUnstableModules => true,
        _ => false,
    }
}

/// The properties that the schema declares on each type, inherited ones included.
pub open spec fn declares_property(t: TypeName, p: PropertyName) -> bool {
    match t {
        TypeName::Node | TypeName::Body | TypeName::FnBody | TypeName::Expr | TypeName::Block
        | TypeName::MethodCall | TypeName::Statement | TypeName::LocalStatement => p
            == PropertyName::InsideConstContext,
        TypeName::Item | TypeName::Fn => p == PropertyName::InsideConstContext || p
            == PropertyName::Ident,
        TypeName::Def => p == PropertyName::Ident || p == PropertyName::Path,
        TypeName::Ty => p == PropertyName::AsString,
        TypeName::Stability => is_stability_field(p),
        TypeName::ConstStability => is_stability_field(p) || p == PropertyName::Promotable,
        TypeName::Crate => false,
    }
}

pub fn property_declared(t: TypeName, p: PropertyName) -> (r: bool)
    ensures
        r == declares_property(t, p),
{
    let stability_field = match p {
        PropertyName::Feature | PropertyName::Stable | PropertyName::Reason | PropertyName::Issue
        | PropertyName::Soft | PropertyName::ImpliedBy | PropertyName::Since
        | PropertyName::AllowedThroughUnstableModules => true,
        _ => false,
    };
    match t {
        TypeName::Node | TypeName::Body | TypeName::FnBody | TypeName::Expr | TypeName::Block
        | TypeName::MethodCall | TypeName::Statement | TypeName::LocalStatement => p
            == PropertyName::InsideConstContext,
        TypeName::Item | TypeName::Fn => p == PropertyName::InsideConstContext || p
            == PropertyName::Ident,
        TypeName::Def => p == PropertyName::Ident || p == PropertyName::Path,
        TypeName::Ty => p == PropertyName::AsString,
        TypeName::Stability => stability_field,
        TypeName::ConstStability => stability_field || p == PropertyName::Promotable,
        TypeName::Crate => false,
    }
}

} // verus!
