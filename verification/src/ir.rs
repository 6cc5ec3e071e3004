//! The expression tree that the rule inspects, as plain values, and the
//! mathematical trees that stand for them in contracts.

use crate::span::Span;
use vstd::prelude::*;

verus! {

/// The identity of a macro definition, as the host knows it.
#[derive(Debug, PartialEq, Eq)]
pub struct MacroDef {
    /// Opaque identifier of the definition.
    pub id: u64,
    /// The diagnostic name that the host has registered for the definition,
    /// if it has one.
    pub diagnostic_name: Option<String>,
}

/// One macro call: which macro, where it was written, and what it produced.
#[derive(Debug, PartialEq, Eq)]
pub struct MacroCall {
    pub def: MacroDef,
    /// The whole call as written, from the macro's name to the closing
    /// delimiter.
    pub call_span: Span,
    /// The code that the expansion put in place of the call.
    pub expansion_span: Span,
}

/// What kind of expression a node is.
#[derive(Debug, PartialEq, Eq)]
pub enum ExprKind {
    Literal,
    Path,
    /// `callee(args)`
    Call { callee: Box<Expr>, args: Vec<Expr> },
    /// `receiver.method(args)`; `args` does not hold the receiver.
    MethodCall { method: String, receiver: Box<Expr>, args: Vec<Expr> },
    /// `base.name`
    Field { base: Box<Expr>, name: String },
    Block { body: Vec<Expr> },
    /// The outermost node of what a macro call expanded to, with the
    /// arguments of the call in the order in which they were written.
    MacroExpansion { call: MacroCall, args: Vec<Expr> },
    Other,
}

/// A node of the expression tree.
#[derive(Debug, PartialEq, Eq)]
pub struct Expr {
    /// Opaque identifier of the node.
    pub id: u64,
    pub kind: ExprKind,
    pub span: Span,
}

/// A macro definition with its name as a character sequence.
pub struct MacroDefView {
    pub id: u64,
    pub diagnostic_name: Option<Seq<char>>,
}

/// A macro call over [`MacroDefView`].
pub struct MacroCallView {
    pub def: MacroDefView,
    pub call_span: Span,
    pub expansion_span: Span,
}

/// The kind of a node, with names as character sequences and children as
/// sequences of trees.
pub enum ExprKindView {
    Literal,
    Path,
    Call { callee: Box<ExprView>, args: Seq<ExprView> },
    MethodCall { method: Seq<char>, receiver: Box<ExprView>, args: Seq<ExprView> },
    Field { base: Box<ExprView>, name: Seq<char> },
    Block { body: Seq<ExprView> },
    MacroExpansion { call: MacroCallView, args: Seq<ExprView> },
    Other,
}

/// A node over [`ExprKindView`].
pub struct ExprView {
    pub id: u64,
    pub kind: ExprKindView,
    pub span: Span,
}

impl View for MacroDef {
    type V = MacroDefView;

    open spec fn view(&self) -> MacroDefView {
        MacroDefView {
            id: self.id,
            diagnostic_name: match self.diagnostic_name {
                Some(name) => Some(name@),
                None => None,
            },
        }
    }
}

impl View for MacroCall {
    type V = MacroCallView;

    open spec fn view(&self) -> MacroCallView {
        MacroCallView {
            def: self.def@,
            call_span: self.call_span,
            expansion_span: self.expansion_span,
        }
    }
}

/// The tree that stands for `e`.
pub open spec fn tree_of(e: Expr) -> ExprView
    decreases e, 0int,
{
    ExprView {
        id: e.id,
        kind: match e.kind {
            ExprKind::Literal => ExprKindView::Literal,
            ExprKind::Path => ExprKindView::Path,
            ExprKind::Call { callee, args } => ExprKindView::Call {
                callee: Box::new(tree_of(*callee)),
                args: trees_of(args),
            },
            ExprKind::MethodCall { method, receiver, args } => ExprKindView::MethodCall {
                method: method@,
                receiver: Box::new(tree_of(*receiver)),
                args: trees_of(args),
            },
            ExprKind::Field { base, name } => ExprKindView::Field {
                base: Box::new(tree_of(*base)),
                name: name@,
            },
            ExprKind::Block { body } => ExprKindView::Block { body: trees_of(body) },
            ExprKind::MacroExpansion { call, args } => ExprKindView::MacroExpansion {
                call: call@,
                args: trees_of(args),
            },
            ExprKind::Other => ExprKindView::Other,
        },
        span: e.span,
    }
}

/// The trees that stand for the nodes of `nodes`, in their order.
pub open spec fn trees_of(nodes: Vec<Expr>) -> Seq<ExprView>
    decreases nodes, 1int,
{
    Seq::new(
        nodes.len() as nat,
        |i: int|
            if 0 <= i < nodes.len() {
                tree_of(nodes[i])
            } else {
                arbitrary()
            },
    )
}

/// The trees of a list of nodes are the trees of its nodes, one by one.
pub proof fn lemma_trees_of(nodes: Vec<Expr>)
    ensures
        trees_of(nodes).len() == nodes@.len(),
        forall|i: int|
            0 <= i < nodes@.len() ==> #[trigger] trees_of(nodes)[i] == tree_of(nodes@[i]),
{
}

impl View for Expr {
    type V = ExprView;

    open spec fn view(&self) -> ExprView {
        tree_of(*self)
    }
}

} // verus!
