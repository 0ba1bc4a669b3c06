//! The tree transformer: a depth-first fold that opens a guard at the head
//! of every eligible function body.
//!
//! The guard is bound to the scope of the body: it is the first statement,
//! the statements that the body held follow it in their order, and the guard
//! ends when control leaves the body.

use crate::exclusion::excluded;
use crate::guard::{guard_for, guarded_body};
use crate::names::{impl_segment, impl_segment_of, Flamer};
use crate::syntax::{
    node_view, nodes_view, Function, FunctionView, Impl, ImplView, MacroInvocation,
    MacroInvocationView, Module, ModuleView, NodeView, Other, OtherView, SyntaxNode, Trait,
    TraitView,
};
use vstd::prelude::*;

verus! {

/// The transformed node, with `stack` the names of the scopes around it.
pub open spec fn folded(stack: Seq<Seq<char>>, node: NodeView) -> NodeView
    decreases node,
{
    match node {
        NodeView::Module(m) => NodeView::Module(folded_module(stack, m)),
        NodeView::Trait(t) => NodeView::Trait(folded_trait(stack, t)),
        NodeView::TraitMethod(f) => NodeView::TraitMethod(folded_function(stack, f)),
        NodeView::Impl(i) => NodeView::Impl(folded_impl(stack, i)),
        NodeView::ImplMethod(f) => NodeView::ImplMethod(folded_function(stack, f)),
        NodeView::FreeFunction(f) => NodeView::FreeFunction(folded_function(stack, f)),
        NodeView::MacroInvocation(m) => NodeView::MacroInvocation(folded_macro(stack, m)),
        NodeView::Guard(g) => NodeView::Guard(g),
        NodeView::Other(o) => NodeView::Other(folded_other(stack, o)),
    }
}

/// The nodes transformed one by one, each with the same `stack`.
pub open spec fn folded_all(stack: Seq<Seq<char>>, nodes: Seq<NodeView>) -> Seq<NodeView>
    decreases nodes,
{
    Seq::new(
        nodes.len(),
        |i: int|
            if 0 <= i < nodes.len() {
                folded(stack, nodes[i])
            } else {
                arbitrary()
            },
    )
}

/// The transformed module: untouched if excluded, else its items are
/// transformed inside the scope that its name opens.
pub open spec fn folded_module(stack: Seq<Seq<char>>, m: ModuleView) -> ModuleView
    decreases m,
{
    if excluded(m.attrs) {
        m
    } else {
        ModuleView { items: folded_all(stack.push(m.ident), m.items), ..m }
    }
}

/// The transformed trait: untouched if excluded, else its items are
/// transformed inside the scope that its name opens.
pub open spec fn folded_trait(stack: Seq<Seq<char>>, t: TraitView) -> TraitView
    decreases t,
{
    if excluded(t.attrs) {
        t
    } else {
        TraitView { items: folded_all(stack.push(t.ident), t.items), ..t }
    }
}

/// The transformed implementation block: untouched if excluded, else its
/// items are transformed inside the scope that [`impl_segment`] names.
pub open spec fn folded_impl(stack: Seq<Seq<char>>, i: ImplView) -> ImplView
    decreases i,
{
    if excluded(i.attrs) {
        i
    } else {
        ImplView {
            items: folded_all(stack.push(impl_segment(i.self_ty, i.trait_path)), i.items),
            ..i
        }
    }
}

/// The transformed function.
///
/// - Excluded: untouched, with everything beneath it.
/// - Constant: no guard and no new scope; the statements of its body are
///   transformed, so that functions nested in it are still reached.
/// - Otherwise: its name opens a scope, the guard named by that scope comes
///   first, and the statements of the body follow, each transformed.
pub open spec fn folded_function(stack: Seq<Seq<char>>, f: FunctionView) -> FunctionView
    decreases f,
{
    if excluded(f.attrs) {
        f
    } else if f.is_const {
        FunctionView { body: folded_all(stack, f.body), ..f }
    } else {
        let scope = stack.push(f.ident);
        FunctionView { body: seq![guard_for(scope)] + folded_all(scope, f.body), ..f }
    }
}

/// The transformed macro invocation: where the host expanded it, the
/// expansion is transformed as if it stood in the invocation's place; where
/// it did not, the invocation is untouched.
pub open spec fn folded_macro(stack: Seq<Seq<char>>, m: MacroInvocationView) -> MacroInvocationView
    decreases m,
{
    match m.expansion {
        Some(expansion) => MacroInvocationView {
            expansion: Some(folded_all(stack, expansion)),
            ..m
        },
        None => m,
    }
}

/// The transformed other node: the node itself stays, its children are
/// transformed in the same scope.
pub open spec fn folded_other(stack: Seq<Seq<char>>, o: OtherView) -> OtherView
    decreases o,
{
    OtherView { children: folded_all(stack, o.children), ..o }
}

impl Flamer {
    /// Transforms a node of any kind. The stack is the same after as before.
    pub fn fold_node(&mut self, node: SyntaxNode) -> (out: SyntaxNode)
        ensures
            final(self)@ == old(self)@,
            out@ == folded(old(self)@, node@),
        decreases node, 0nat,
    {
        match node {
            SyntaxNode::Module(m) => SyntaxNode::Module(self.fold_item_mod(m)),
            SyntaxNode::Trait(t) => SyntaxNode::Trait(self.fold_item_trait(t)),
            SyntaxNode::TraitMethod(f) => SyntaxNode::TraitMethod(self.fold_trait_item_method(f)),
            SyntaxNode::Impl(i) => SyntaxNode::Impl(self.fold_item_impl(i)),
            SyntaxNode::ImplMethod(f) => SyntaxNode::ImplMethod(self.fold_impl_item_method(f)),
            SyntaxNode::FreeFunction(f) => SyntaxNode::FreeFunction(self.fold_item_fn(f)),
            SyntaxNode::MacroInvocation(m) => SyntaxNode::MacroInvocation(self.fold_macro(m)),
            SyntaxNode::Guard(g) => SyntaxNode::Guard(g),
            SyntaxNode::Other(o) => SyntaxNode::Other(self.fold_other(o)),
        }
    }

    /// Transforms `nodes` in order and appends the results to `out`.
    fn fold_into(&mut self, nodes: Vec<SyntaxNode>, out: &mut Vec<SyntaxNode>)
        ensures
            final(self)@ == old(self)@,
            nodes_view(final(out)@) == nodes_view(old(out)@) + folded_all(
                old(self)@,
                nodes_view(nodes@),
            ),
        decreases nodes, 0nat,
    {
        let ghost before = nodes_view(out@);
        for node in it: nodes.into_iter()
            invariant
                it.seq() == nodes@,
                self@ == old(self)@,
                nodes_view(out@).len() == before.len() + it.index(),
                forall|j: int| 0 <= j < before.len() ==> nodes_view(out@)[j] == before[j],
                forall|k: int|
                    before.len() <= k < before.len() + it.index() ==> nodes_view(out@)[k] == folded(
                        old(self)@,
                        node_view(nodes@[k - before.len()]),
                    ),
        {
            let ghost so_far = nodes_view(out@);
            let folded_node = self.fold_node(node);
            out.push(folded_node);
            assert(nodes_view(out@) =~= so_far.push(folded_node@));
        }
        assert(nodes_view(out@) =~= before + folded_all(old(self)@, nodes_view(nodes@)));
    }

    /// Transforms `nodes` in order.
    pub fn fold_nodes(&mut self, nodes: Vec<SyntaxNode>) -> (out: Vec<SyntaxNode>)
        ensures
            final(self)@ == old(self)@,
            nodes_view(out@) == folded_all(old(self)@, nodes_view(nodes@)),
        decreases nodes, 1nat,
    {
        let mut out: Vec<SyntaxNode> = Vec::new();
        self.fold_into(nodes, &mut out);
        assert(nodes_view(out@) =~= folded_all(old(self)@, nodes_view(nodes@)));
        out
    }

    /// Transforms a module.
    pub fn fold_item_mod(&mut self, i: Module) -> (out: Module)
        ensures
            final(self)@ == old(self)@,
            out@ == folded_module(old(self)@, i@),
        decreases i, 0nat,
    {
        if self.is_noflame(i.attrs.as_slice()) {
            return i;
        }
        let Module { attrs, ident, items } = i;
        self.push(ident.clone());
        let items = self.fold_nodes(items);
        self.pop();
        assert(self@ =~= old(self)@);
        Module { attrs, ident, items }
    }

    /// Transforms a trait.
    pub fn fold_item_trait(&mut self, i: Trait) -> (out: Trait)
        ensures
            final(self)@ == old(self)@,
            out@ == folded_trait(old(self)@, i@),
        decreases i, 0nat,
    {
        if self.is_noflame(i.attrs.as_slice()) {
            return i;
        }
        let Trait { attrs, ident, items } = i;
        self.push(ident.clone());
        let items = self.fold_nodes(items);
        self.pop();
        assert(self@ =~= old(self)@);
        Trait { attrs, ident, items }
    }

    /// Transforms a trait method that has a default body.
    pub fn fold_trait_item_method(&mut self, i: Function) -> (out: Function)
        ensures
            final(self)@ == old(self)@,
            out@ == folded_function(old(self)@, i@),
        decreases i, 1nat,
    {
        self.fold_function(i)
    }

    /// Transforms an implementation block.
    pub fn fold_item_impl(&mut self, i: Impl) -> (out: Impl)
        ensures
            final(self)@ == old(self)@,
            out@ == folded_impl(old(self)@, i@),
        decreases i, 0nat,
    {
        if self.is_noflame(i.attrs.as_slice()) {
            return i;
        }
        let Impl { attrs, self_ty, trait_path, items } = i;
        self.push(impl_segment_of(&self_ty, &trait_path));
        let items = self.fold_nodes(items);
        self.pop();
        assert(self@ =~= old(self)@);
        Impl { attrs, self_ty, trait_path, items }
    }

    /// Transforms a method of an implementation block.
    pub fn fold_impl_item_method(&mut self, i: Function) -> (out: Function)
        ensures
            final(self)@ == old(self)@,
            out@ == folded_function(old(self)@, i@),
        decreases i, 1nat,
    {
        self.fold_function(i)
    }

    /// Transforms a free function.
    pub fn fold_item_fn(&mut self, i: Function) -> (out: Function)
        ensures
            final(self)@ == old(self)@,
            out@ == folded_function(old(self)@, i@),
        decreases i, 1nat,
    {
        self.fold_function(i)
    }

    /// Transforms a function of any of the three kinds.
    fn fold_function(&mut self, f: Function) -> (out: Function)
        ensures
            final(self)@ == old(self)@,
            out@ == folded_function(old(self)@, f@),
        decreases f, 0nat,
    {
        if self.is_noflame(f.attrs.as_slice()) {
            return f;
        }
        let Function { attrs, ident, is_const, body } = f;
        if is_const {
            let body = self.fold_nodes(body);
            return Function { attrs, ident, is_const, body };
        }
        self.push(ident.clone());
        let mut stmts = guarded_body(self.name());
        self.fold_into(body, &mut stmts);
        self.pop();
        assert(self@ =~= old(self)@);
        Function { attrs, ident, is_const, body: stmts }
    }

    /// Transforms a macro invocation.
    pub fn fold_macro(&mut self, m: MacroInvocation) -> (out: MacroInvocation)
        ensures
            final(self)@ == old(self)@,
            out@ == folded_macro(old(self)@, m@),
        decreases m, 0nat,
    {
        let MacroInvocation { tokens, expansion } = m;
        match expansion {
            Some(nodes) => {
                let nodes = self.fold_nodes(nodes);
                MacroInvocation { tokens, expansion: Some(nodes) }
            },
            None => MacroInvocation { tokens, expansion: None },
        }
    }

    /// Transforms a node of no other kind.
    pub fn fold_other(&mut self, o: Other) -> (out: Other)
        ensures
            final(self)@ == old(self)@,
            out@ == folded_other(old(self)@, o@),
        decreases o, 0nat,
    {
        let Other { tokens, children } = o;
        let children = self.fold_nodes(children);
        Other { tokens, children }
    }
}

} // verus!
