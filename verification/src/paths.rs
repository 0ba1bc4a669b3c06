//! Positions in a tree: paths from a root to a node, what the fold does on
//! the way down a path, and where a node of the input stands in the output.

use crate::exclusion::excluded;
use crate::guard::guard_for;
use crate::names::impl_segment;
use crate::syntax::{FunctionView, NodeView};
use crate::transform::{folded, folded_all};
use vstd::prelude::*;

verus! {

/// The subtrees directly beneath a node, in order: the items of a module, a
/// trait or an implementation block, the statements of a function body, the
/// expansion of a macro invocation, the children of an other node.
pub open spec fn children(node: NodeView) -> Seq<NodeView> {
    match node {
        NodeView::Module(m) => m.items,
        NodeView::Trait(t) => t.items,
        NodeView::TraitMethod(f) => f.body,
        NodeView::Impl(i) => i.items,
        NodeView::ImplMethod(f) => f.body,
        NodeView::FreeFunction(f) => f.body,
        NodeView::MacroInvocation(m) => match m.expansion {
            Some(expansion) => expansion,
            None => Seq::empty(),
        },
        NodeView::Guard(_) => Seq::empty(),
        NodeView::Other(o) => o.children,
    }
}

/// Whether the node is function-like.
pub open spec fn is_function(node: NodeView) -> bool {
    node is TraitMethod || node is ImplMethod || node is FreeFunction
}

/// The function that a function-like node holds.
pub open spec fn function_of(node: NodeView) -> FunctionView
    recommends
        is_function(node),
{
    match node {
        NodeView::TraitMethod(f) => f,
        NodeView::ImplMethod(f) => f,
        NodeView::FreeFunction(f) => f,
        _ => arbitrary(),
    }
}

/// Whether the two nodes are of the same kind.
pub open spec fn same_kind(a: NodeView, b: NodeView) -> bool {
    match a {
        NodeView::Module(_) => b is Module,
        NodeView::Trait(_) => b is Trait,
        NodeView::TraitMethod(_) => b is TraitMethod,
        NodeView::Impl(_) => b is Impl,
        NodeView::ImplMethod(_) => b is ImplMethod,
        NodeView::FreeFunction(_) => b is FreeFunction,
        NodeView::MacroInvocation(_) => b is MacroInvocation,
        NodeView::Guard(_) => b is Guard,
        NodeView::Other(_) => b is Other,
    }
}

/// Whether the node carries the entry or the opt-out annotation.
pub open spec fn is_excluded(node: NodeView) -> bool {
    match node {
        NodeView::Module(m) => excluded(m.attrs),
        NodeView::Trait(t) => excluded(t.attrs),
        NodeView::TraitMethod(f) => excluded(f.attrs),
        NodeView::Impl(i) => excluded(i.attrs),
        NodeView::ImplMethod(f) => excluded(f.attrs),
        NodeView::FreeFunction(f) => excluded(f.attrs),
        _ => false,
    }
}

/// Whether the node is a function that is neither excluded nor constant.
pub open spec fn is_eligible(node: NodeView) -> bool {
    is_function(node) && !is_excluded(node) && !function_of(node).is_const
}

/// The stack in force for the children of `node`, where `stack` is in force
/// for the node itself: a module, a trait, an implementation block and a
/// function that is not constant each open a scope.
pub open spec fn inner_scope(stack: Seq<Seq<char>>, node: NodeView) -> Seq<Seq<char>> {
    match node {
        NodeView::Module(m) => stack.push(m.ident),
        NodeView::Trait(t) => stack.push(t.ident),
        NodeView::Impl(i) => stack.push(impl_segment(i.self_ty, i.trait_path)),
        NodeView::TraitMethod(f) | NodeView::ImplMethod(f) | NodeView::FreeFunction(f) => {
            if f.is_const {
                stack
            } else {
                stack.push(f.ident)
            }
        },
        _ => stack,
    }
}

/// Whether `path` leads from `node` to a node beneath it (or, if empty, to
/// `node` itself): each element is the index of a child.
pub open spec fn is_path(node: NodeView, path: Seq<int>) -> bool
    decreases path.len(),
{
    path.len() == 0 || (0 <= path[0] < children(node).len() && is_path(
        children(node)[path[0]],
        path.drop_first(),
    ))
}

/// The node that `path` leads to.
pub open spec fn subtree(node: NodeView, path: Seq<int>) -> NodeView
    recommends
        is_path(node, path),
    decreases path.len(),
{
    if path.len() == 0 {
        node
    } else {
        subtree(children(node)[path[0]], path.drop_first())
    }
}

/// Whether the fold comes to the node that `path` leads to: no node above it
/// on the path is excluded.
pub open spec fn is_reached(node: NodeView, path: Seq<int>) -> bool
    recommends
        is_path(node, path),
    decreases path.len(),
{
    path.len() == 0 || (!is_excluded(node) && is_reached(
        children(node)[path[0]],
        path.drop_first(),
    ))
}

/// The stack in force for the node that `path` leads to, where `stack` is in
/// force for `node`.
pub open spec fn scope_at(stack: Seq<Seq<char>>, node: NodeView, path: Seq<int>) -> Seq<Seq<char>>
    recommends
        is_path(node, path),
    decreases path.len(),
{
    if path.len() == 0 {
        stack
    } else {
        scope_at(inner_scope(stack, node), children(node)[path[0]], path.drop_first())
    }
}

/// The path, in the transformed tree, to the node that stands for the one
/// that `path` leads to in `node`: beneath every eligible function on the way
/// the index is one higher, since the guard comes first.
pub open spec fn image(node: NodeView, path: Seq<int>) -> Seq<int>
    recommends
        is_path(node, path),
    decreases path.len(),
{
    if path.len() == 0 || is_excluded(node) {
        path
    } else {
        let shift: int = if is_eligible(node) {
            1
        } else {
            0
        };
        seq![path[0] + shift] + image(children(node)[path[0]], path.drop_first())
    }
}

/// An excluded node is its own transform.
pub proof fn lemma_excluded_is_untouched(stack: Seq<Seq<char>>, node: NodeView)
    requires
        is_excluded(node),
    ensures
        folded(stack, node) == node,
{
}

/// The children of a transformed node: those of the node itself if it is
/// excluded, else its children transformed in the scope that it opens, with
/// the guard before them if the node is an eligible function.
pub proof fn lemma_children_of_folded(stack: Seq<Seq<char>>, node: NodeView)
    ensures
        children(folded(stack, node)) == if is_excluded(node) {
            children(node)
        } else if is_eligible(node) {
            seq![guard_for(inner_scope(stack, node))] + folded_all(
                inner_scope(stack, node),
                children(node),
            )
        } else {
            folded_all(inner_scope(stack, node), children(node))
        },
        same_kind(node, folded(stack, node)),
{
    match node {
        NodeView::MacroInvocation(m) => {
            assert(folded_all(stack, Seq::<NodeView>::empty()) =~= Seq::<NodeView>::empty());
        },
        NodeView::Guard(_) => {
            assert(folded_all(stack, Seq::<NodeView>::empty()) =~= Seq::<NodeView>::empty());
        },
        _ => {},
    }
}

/// The fold commutes with descent: the node that stands, in the transformed
/// tree, for the one that `path` leads to is that node transformed in the
/// scope in force there, if the fold comes to it, and that node itself if an
/// excluded node above it stopped the fold.
pub proof fn lemma_fold_follows_paths(stack: Seq<Seq<char>>, root: NodeView, path: Seq<int>)
    requires
        is_path(root, path),
    ensures
        is_path(folded(stack, root), image(root, path)),
        subtree(folded(stack, root), image(root, path)) == if is_reached(root, path) {
            folded(scope_at(stack, root, path), subtree(root, path))
        } else {
            subtree(root, path)
        },
    decreases path.len(),
{
    if path.len() == 0 {
    } else if is_excluded(root) {
        lemma_excluded_is_untouched(stack, root);
    } else {
        let child = children(root)[path[0]];
        let rest = path.drop_first();
        let scope = inner_scope(stack, root);
        let there = image(root, path);
        lemma_children_of_folded(stack, root);
        lemma_fold_follows_paths(scope, child, rest);
        assert(there.drop_first() =~= image(child, rest));
        assert(children(folded(stack, root))[there[0]] == folded(scope, child));
    }
}

} // verus!
