use vstd::prelude::*;

use crate::ids::{BodyId, DefId, HirId, ItemId};
use crate::schema::TypeName;

verus! {

/// One vertex of the graph. Each variant carries only an identity handle
/// into the compiler session that produced it.
#[derive(Debug, Clone, Copy, PartialEq, Eq, Structural)]
pub enum Vertex {
    Block(HirId),
    Body(BodyId),
    Crate,
    Expr(HirId),
    Fn(ItemId),
    FnBody(BodyId),
    Item(ItemId),
    LocalStatement(HirId),
    Node(HirId),
    Statement(HirId),
    Ty(HirId),
    MethodCall(HirId),
    Def(DefId),
    Stability(DefId),
    ConstStability(DefId),
}

impl Vertex {
    /// The schema type of the vertex's variant.
    pub open spec fn type_of(self) -> TypeName {
        match self {
            Vertex::Block(_) => TypeName::Block,
            Vertex::Body(_) => TypeName::Body,
            Vertex::Crate => TypeName::Crate,
            Vertex::Expr(_) => TypeName::Expr,
            Vertex::Fn(_) => TypeName::Fn,
            Vertex::FnBody(_) => TypeName::FnBody,
            Vertex::Item(_) => TypeName::Item,
            Vertex::LocalStatement(_) => TypeName::LocalStatement,
            Vertex::Node(_) => TypeName::Node,
            Vertex::Statement(_) => TypeName::Statement,
            Vertex::Ty(_) => TypeName::Ty,
            Vertex::MethodCall(_) => TypeName::MethodCall,
            Vertex::Def(_) => TypeName::Def,
            Vertex::Stability(_) => TypeName::Stability,
            Vertex::ConstStability(_) => TypeName::ConstStability,
        }
    }

    pub fn vertex_type(&self) -> (r: TypeName)
        ensures
            r == self.type_of(),
    {
        match self {
            Vertex::Block(_) => TypeName::Block,
            Vertex::Body(_) => TypeName::Body,
            Vertex::Crate => TypeName::Crate,
            Vertex::Expr(_) => TypeName::Expr,
            Vertex::Fn(_) => TypeName::Fn,
            Vertex::FnBody(_) => TypeName::FnBody,
            Vertex::Item(_) => TypeName::Item,
            Vertex::LocalStatement(_) => TypeName::LocalStatement,
            Vertex::Node(_) => TypeName::Node,
            Vertex::Statement(_) => TypeName::Statement,
            Vertex::Ty(_) => TypeName::Ty,
            Vertex::MethodCall(_) => TypeName::MethodCall,
            Vertex::Def(_) => TypeName::Def,
            Vertex::Stability(_) => TypeName::Stability,
            Vertex::ConstStability(_) => TypeName::ConstStability,
        }
    }

    /// The runtime type name of the vertex, whatever type it was reached as.
    pub fn typename(&self) -> (r: &'static str)
        ensures
            r@ == self.type_of().name(),
    {
        self.vertex_type().as_str()
    }

    /// The item handle of an `Item` or `Fn` vertex.
    pub open spec fn spec_item_id(self) -> Option<ItemId> {
        match self {
            Vertex::Item(id) | Vertex::Fn(id) => Some(id),
            _ => None,
        }
    }

    /// The body handle of a `Body` or `FnBody` vertex.
    pub open spec fn spec_body_id(self) -> Option<BodyId> {
        match self {
            Vertex::Body(id) | Vertex::FnBody(id) => Some(id),
            _ => None,
        }
    }

    /// The generic node handle of every syntax-node vertex.
    pub open spec fn spec_hir_id(self) -> Option<HirId> {
        match self {
            Vertex::Item(id) | Vertex::Fn(id) => Some(id.spec_hir_id()),
            Vertex::Body(id) | Vertex::FnBody(id) => Some(id.hir_id),
            Vertex::Node(h) | Vertex::Block(h) | Vertex::Expr(h) | Vertex::MethodCall(h)
            | Vertex::Statement(h) | Vertex::LocalStatement(h) => Some(h),
            _ => None,
        }
    }

    /// The definition handle of a `Def` vertex.
    pub open spec fn spec_def_id(self) -> Option<DefId> {
        match self {
            Vertex::Def(id) => Some(id),
            _ => None,
        }
    }

    /// Whether the vertex is the `Crate` singleton.
    pub fn as_crate(&self) -> (r: Option<()>)
        ensures
            r is Some <==> *self is Crate,
    {
        match self {
            Vertex::Crate => Some(()),
            _ => None,
        }
    }

    /// The handle of a `Block` vertex.
    pub fn as_block(&self) -> (r: Option<HirId>)
        ensures
            r == (match *self {
                Vertex::Block(h) => Some(h),
                _ => None,
            }),
    {
        match self {
            Vertex::Block(h) => Some(*h),
            _ => None,
        }
    }

    /// The handle of a `Body` vertex.
    pub fn as_body(&self) -> (r: Option<BodyId>)
        ensures
            r == (match *self {
                Vertex::Body(h) => Some(h),
                _ => None,
            }),
    {
        match self {
            Vertex::Body(h) => Some(*h),
            _ => None,
        }
    }

    /// The handle of a `Expr` vertex.
    pub fn as_expr(&self) -> (r: Option<HirId>)
        ensures
            r == (match *self {
                Vertex::Expr(h) => Some(h),
                _ => None,
            }),
    {
        match self {
            Vertex::Expr(h) => Some(*h),
            _ => None,
        }
    }

    /// The handle of a `Fn` vertex.
    pub fn as_fn(&self) -> (r: Option<ItemId>)
        ensures
            r == (match *self {
                Vertex::Fn(h) => Some(h),
                _ => None,
            }),
    {
        match self {
            Vertex::Fn(h) => Some(*h),
            _ => None,
        }
    }

    /// The handle of a `FnBody` vertex.
    pub fn as_fn_body(&self) -> (r: Option<BodyId>)
        ensures
            r == (match *self {
                Vertex::FnBody(h) => Some(h),
                _ => None,
            }),
    {
        match self {
            Vertex::FnBody(h) => Some(*h),
            _ => None,
        }
    }

    /// The handle of a `Item` vertex.
    pub fn as_item(&self) -> (r: Option<ItemId>)
        ensures
            r == (match *self {
                Vertex::Item(h) => Some(h),
                _ => None,
            }),
    {
        match self {
            Vertex::Item(h) => Some(*h),
            _ => None,
        }
    }

    /// The handle of a `LocalStatement` vertex.
    pub fn as_local_statement(&self) -> (r: Option<HirId>)
        ensures
            r == (match *self {
                Vertex::LocalStatement(h) => Some(h),
                _ => None,
            }),
    {
        match self {
            Vertex::LocalStatement(h) => Some(*h),
            _ => None,
        }
    }

    /// The handle of a `Node` vertex.
    pub fn as_node(&self) -> (r: Option<HirId>)
        ensures
            r == (match *self {
                Vertex::Node(h) => Some(h),
                _ => None,
            }),
    {
        match self {
            Vertex::Node(h) => Some(*h),
            _ => None,
        }
    }

    /// The handle of a `Statement` vertex.
    pub fn as_statement(&self) -> (r: Option<HirId>)
        ensures
            r == (match *self {
                Vertex::Statement(h) => Some(h),
                _ => None,
            }),
    {
        match self {
            Vertex::Statement(h) => Some(*h),
            _ => None,
        }
    }

    /// The handle of a `Ty` vertex.
    pub fn as_ty(&self) -> (r: Option<HirId>)
        ensures
            r == (match *self {
                Vertex::Ty(h) => Some(h),
                _ => None,
            }),
    {
        match self {
            Vertex::Ty(h) => Some(*h),
            _ => None,
        }
    }

    /// The handle of a `MethodCall` vertex.
    pub fn as_method_call(&self) -> (r: Option<HirId>)
        ensures
            r == (match *self {
                Vertex::MethodCall(h) => Some(h),
                _ => None,
            }),
    {
        match self {
            Vertex::MethodCall(h) => Some(*h),
            _ => None,
        }
    }

    /// The handle of a `Def` vertex.
    pub fn as_def(&self) -> (r: Option<DefId>)
        ensures
            r == (match *self {
                Vertex::Def(h) => Some(h),
                _ => None,
            }),
    {
        match self {
            Vertex::Def(h) => Some(*h),
            _ => None,
        }
    }

    /// The handle of a `Stability` vertex.
    pub fn as_stability(&self) -> (r: Option<DefId>)
        ensures
            r == (match *self {
                Vertex::Stability(h) => Some(h),
                _ => None,
            }),
    {
        match self {
            Vertex::Stability(h) => Some(*h),
            _ => None,
        }
    }

    /// The handle of a `ConstStability` vertex.
    pub fn as_const_stability(&self) -> (r: Option<DefId>)
        ensures
            r == (match *self {
                Vertex::ConstStability(h) => Some(h),
                _ => None,
            }),
    {
        match self {
            Vertex::ConstStability(h) => Some(*h),
            _ => None,
        }
    }

    pub fn hir_id(&self) -> (r: Option<HirId>)
        ensures
            r == self.spec_hir_id(),
    {
        if let Some(item_id) = self.item_id() {
            Some(item_id.hir_id())
        } else if let Some(body_id) = self.body_id() {
            Some(body_id.hir_id)
        } else {
            match self {
                Vertex::Node(h) | Vertex::Block(h) | Vertex::Expr(h) | Vertex::MethodCall(h)
                | Vertex::Statement(h) | Vertex::LocalStatement(h) => Some(*h),
                _ => None,
            }
        }
    }

    pub fn item_id(&self) -> (r: Option<ItemId>)
        ensures
            r == self.spec_item_id(),
    {
        match self {
            Vertex::Item(id) | Vertex::Fn(id) => Some(*id),
            _ => None,
        }
    }

    pub fn body_id(&self) -> (r: Option<BodyId>)
        ensures
            r == self.spec_body_id(),
    {
        match self {
            Vertex::Body(id) | Vertex::FnBody(id) => Some(*id),
            _ => None,
        }
    }

    pub fn def_id(&self) -> (r: Option<DefId>)
        ensures
            r == self.spec_def_id(),
    {
        match self {
            Vertex::Def(id) => Some(*id),
            _ => None,
        }
    }
}

} // verus!
