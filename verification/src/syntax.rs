//! The syntax tree that the transformation works on, and its mathematical model.
//!
//! A host turns its own tree into a [`SyntaxNode`], keeping what the
//! transformation reads as plain values and everything else as opaque token
//! text. Every executable type has a view made of sequences of characters and
//! sequences of nodes; contracts speak of the views.

use crate::names::opt_string_view;
use vstd::prelude::*;

verus! {

/// An annotation attached to a node: its name and its string arguments.
#[derive(Debug, PartialEq, Eq)]
pub struct Attribute {
    pub name: String,
    pub args: Vec<String>,
}

/// A module with its items.
#[derive(Debug, PartialEq, Eq)]
pub struct Module {
    pub attrs: Vec<Attribute>,
    pub ident: String,
    pub items: Vec<SyntaxNode>,
}

/// A trait with its items.
#[derive(Debug, PartialEq, Eq)]
pub struct Trait {
    pub attrs: Vec<Attribute>,
    pub ident: String,
    pub items: Vec<SyntaxNode>,
}

/// An implementation block: the implementing type, the implemented trait if
/// there is one, both in textual form, and the items.
#[derive(Debug, PartialEq, Eq)]
pub struct Impl {
    pub attrs: Vec<Attribute>,
    pub self_ty: String,
    pub trait_path: Option<String>,
    pub items: Vec<SyntaxNode>,
}

/// A function with a body: a free function, a method of an implementation
/// block, or a trait method with a default body.
#[derive(Debug, PartialEq, Eq)]
pub struct Function {
    pub attrs: Vec<Attribute>,
    pub ident: String,
    /// Whether the body has to be evaluable at compile time.
    pub is_const: bool,
    /// The statements of the body, in order; the last may be a trailing
    /// value expression.
    pub body: Vec<SyntaxNode>,
}

/// A macro invocation. `expansion` holds what the host's expander made of
/// it, or `None` where the host cannot expand at this stage.
#[derive(Debug, PartialEq, Eq)]
pub struct MacroInvocation {
    pub tokens: String,
    pub expansion: Option<Vec<SyntaxNode>>,
}

/// The synthesized statement: a local that is never read, bound to a
/// profiling guard that the runtime constructs from `name`. The guard ends
/// when control leaves the enclosing body, on every path.
#[derive(Debug, PartialEq, Eq)]
pub struct GuardStatement {
    pub name: String,
}

/// Any other node: its own tokens, and the subtrees in it that can hold
/// function-like nodes.
#[derive(Debug, PartialEq, Eq)]
pub struct Other {
    pub tokens: String,
    pub children: Vec<SyntaxNode>,
}

/// A node of the syntax tree.
#[derive(Debug, PartialEq, Eq)]
pub enum SyntaxNode {
    Module(Module),
    Trait(Trait),
    TraitMethod(Function),
    Impl(Impl),
    ImplMethod(Function),
    FreeFunction(Function),
    MacroInvocation(MacroInvocation),
    Guard(GuardStatement),
    Other(Other),
}

/// The model of an [`Attribute`].
pub struct AttributeView {
    pub name: Seq<char>,
    pub args: Seq<Seq<char>>,
}

/// The model of a [`Module`].
pub struct ModuleView {
    pub attrs: Seq<AttributeView>,
    pub ident: Seq<char>,
    pub items: Seq<NodeView>,
}

/// The model of a [`Trait`].
pub struct TraitView {
    pub attrs: Seq<AttributeView>,
    pub ident: Seq<char>,
    pub items: Seq<NodeView>,
}

/// The model of an [`Impl`].
pub struct ImplView {
    pub attrs: Seq<AttributeView>,
    pub self_ty: Seq<char>,
    pub trait_path: Option<Seq<char>>,
    pub items: Seq<NodeView>,
}

/// The model of a [`Function`].
pub struct FunctionView {
    pub attrs: Seq<AttributeView>,
    pub ident: Seq<char>,
    pub is_const: bool,
    pub body: Seq<NodeView>,
}

/// The model of a [`MacroInvocation`].
pub struct MacroInvocationView {
    pub tokens: Seq<char>,
    pub expansion: Option<Seq<NodeView>>,
}

/// The model of a [`GuardStatement`].
pub struct GuardStatementView {
    pub name: Seq<char>,
}

/// The model of an [`Other`] node.
pub struct OtherView {
    pub tokens: Seq<char>,
    pub children: Seq<NodeView>,
}

/// The model of a [`SyntaxNode`].
pub enum NodeView {
    Module(ModuleView),
    Trait(TraitView),
    TraitMethod(FunctionView),
    Impl(ImplView),
    ImplMethod(FunctionView),
    FreeFunction(FunctionView),
    MacroInvocation(MacroInvocationView),
    Guard(GuardStatementView),
    Other(OtherView),
}

impl View for Attribute {
    type V = AttributeView;

    open spec fn view(&self) -> AttributeView {
        AttributeView { name: self.name@, args: self.args.deep_view() }
    }
}

/// The models of a list of attributes.
pub open spec fn attrs_view(attrs: Seq<Attribute>) -> Seq<AttributeView> {
    Seq::new(attrs.len(), |i: int| attrs[i]@)
}

/// The model of a node.
pub open spec fn node_view(node: SyntaxNode) -> NodeView
    decreases node,
{
    match node {
        SyntaxNode::Module(m) => NodeView::Module(module_view(m)),
        SyntaxNode::Trait(t) => NodeView::Trait(trait_view(t)),
        SyntaxNode::TraitMethod(f) => NodeView::TraitMethod(function_view(f)),
        SyntaxNode::Impl(i) => NodeView::Impl(impl_view(i)),
        SyntaxNode::ImplMethod(f) => NodeView::ImplMethod(function_view(f)),
        SyntaxNode::FreeFunction(f) => NodeView::FreeFunction(function_view(f)),
        SyntaxNode::MacroInvocation(m) => NodeView::MacroInvocation(macro_view(m)),
        SyntaxNode::Guard(g) => NodeView::Guard(GuardStatementView { name: g.name@ }),
        SyntaxNode::Other(o) => NodeView::Other(other_view(o)),
    }
}

/// The models of a list of nodes, in order.
pub open spec fn nodes_view(nodes: Seq<SyntaxNode>) -> Seq<NodeView>
    decreases nodes,
{
    Seq::new(
        nodes.len(),
        |i: int|
            if 0 <= i < nodes.len() {
                node_view(nodes[i])
            } else {
                arbitrary()
            },
    )
}

/// The model of a module.
pub open spec fn module_view(m: Module) -> ModuleView
    decreases m,
{
    ModuleView { attrs: attrs_view(m.attrs@), ident: m.ident@, items: nodes_view(m.items@) }
}

/// The model of a trait.
pub open spec fn trait_view(t: Trait) -> TraitView
    decreases t,
{
    TraitView { attrs: attrs_view(t.attrs@), ident: t.ident@, items: nodes_view(t.items@) }
}

/// The model of an implementation block.
pub open spec fn impl_view(i: Impl) -> ImplView
    decreases i,
{
    ImplView {
        attrs: attrs_view(i.attrs@),
        self_ty: i.self_ty@,
        trait_path: opt_string_view(i.trait_path),
        items: nodes_view(i.items@),
    }
}

/// The model of a function.
pub open spec fn function_view(f: Function) -> FunctionView
    decreases f,
{
    FunctionView {
        attrs: attrs_view(f.attrs@),
        ident: f.ident@,
        is_const: f.is_const,
        body: nodes_view(f.body@),
    }
}

/// The model of a macro invocation.
pub open spec fn macro_view(m: MacroInvocation) -> MacroInvocationView
    decreases m,
{
    MacroInvocationView {
        tokens: m.tokens@,
        expansion: match m.expansion {
            Some(e) => Some(nodes_view(e@)),
            None => None,
        },
    }
}

/// The model of an other node.
pub open spec fn other_view(o: Other) -> OtherView
    decreases o,
{
    OtherView { tokens: o.tokens@, children: nodes_view(o.children@) }
}

impl View for SyntaxNode {
    type V = NodeView;

    open spec fn view(&self) -> NodeView {
        node_view(*self)
    }
}

impl View for Module {
    type V = ModuleView;

    open spec fn view(&self) -> ModuleView {
        module_view(*self)
    }
}

impl View for Trait {
    type V = TraitView;

    open spec fn view(&self) -> TraitView {
        trait_view(*self)
    }
}

impl View for Impl {
    type V = ImplView;

    open spec fn view(&self) -> ImplView {
        impl_view(*self)
    }
}

impl View for Function {
    type V = FunctionView;

    open spec fn view(&self) -> FunctionView {
        function_view(*self)
    }
}

impl View for MacroInvocation {
    type V = MacroInvocationView;

    open spec fn view(&self) -> MacroInvocationView {
        macro_view(*self)
    }
}

impl View for GuardStatement {
    type V = GuardStatementView;

    open spec fn view(&self) -> GuardStatementView {
        GuardStatementView { name: self.name@ }
    }
}

impl View for Other {
    type V = OtherView;

    open spec fn view(&self) -> OtherView {
        other_view(*self)
    }
}

} // verus!
