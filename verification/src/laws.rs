//! What holds of the transformation on every tree.

use crate::exclusion::excluded;
use crate::guard::guard_for;
use crate::names::join;
use crate::paths::{
    function_of, image, inner_scope, is_eligible, is_excluded, is_function, is_path, is_reached,
    lemma_children_of_folded, lemma_excluded_is_untouched, lemma_fold_follows_paths, same_kind,
    scope_at, subtree,
};
use crate::syntax::{GuardStatementView, NodeView};
use crate::transform::{folded, folded_all};
use vstd::prelude::*;

verus! {

/// Every function that the fold comes to, and that is neither excluded nor
/// constant, opens with its guard in the transformed tree.
///
/// The function keeps its kind, its attributes and its name. The first
/// statement of its body is the guard whose name is the qualified name of the
/// function: the segments of the scopes from the root down to the function,
/// the function's own name last, joined by `::`. The statements of the
/// input's body follow, each transformed inside the function's scope, so the
/// body has grown by exactly one statement, and a statement after the first
/// is a guard only where the statement of the input was one.
pub proof fn lemma_eligible_function_opens_with_its_guard(
    stack: Seq<Seq<char>>,
    root: NodeView,
    path: Seq<int>,
)
    requires
        is_path(root, path),
        is_reached(root, path),
        is_eligible(subtree(root, path)),
    ensures
        is_path(folded(stack, root), image(root, path)),
        ({
            let input = subtree(root, path);
            let output = subtree(folded(stack, root), image(root, path));
            let f = function_of(input);
            let g = function_of(output);
            let scope = scope_at(stack, root, path).push(f.ident);
            &&& same_kind(input, output)
            &&& g.attrs == f.attrs
            &&& g.ident == f.ident
            &&& g.is_const == f.is_const
            &&& g.body.len() == f.body.len() + 1
            &&& g.body[0] == NodeView::Guard(GuardStatementView { name: join(scope) })
            &&& forall|i: int|
                0 <= i < f.body.len() ==> #[trigger] g.body[i + 1] == folded(scope, f.body[i])
            &&& forall|i: int|
                0 <= i < f.body.len() ==> (#[trigger] g.body[i + 1] is Guard
                    <==> f.body[i] is Guard)
        }),
{
    lemma_fold_follows_paths(stack, root, path);
    let input = subtree(root, path);
    let f = function_of(input);
    let here = scope_at(stack, root, path);
    let scope = here.push(f.ident);
    let g = function_of(folded(here, input));
    lemma_children_of_folded(here, input);
    assert forall|i: int| 0 <= i < f.body.len() implies (#[trigger] g.body[i + 1] is Guard
        <==> f.body[i] is Guard) by {
        lemma_children_of_folded(scope, f.body[i]);
    }
}

/// A node that carries the entry or the opt-out annotation comes out of the
/// transformation as it went in, with everything beneath it, wherever in the
/// tree it stands.
pub proof fn lemma_excluded_subtree_is_untouched(
    stack: Seq<Seq<char>>,
    root: NodeView,
    path: Seq<int>,
)
    requires
        is_path(root, path),
        is_excluded(subtree(root, path)),
    ensures
        is_path(folded(stack, root), image(root, path)),
        subtree(folded(stack, root), image(root, path)) == subtree(root, path),
{
    lemma_fold_follows_paths(stack, root, path);
    lemma_excluded_is_untouched(scope_at(stack, root, path), subtree(root, path));
}

/// A constant function gets no guard, whether or not it or a node above it
/// is excluded, wherever in the tree it stands.
///
/// It keeps its kind, its attributes and its name, and its body keeps its
/// length: each statement is that of the input, untouched or transformed in
/// the scope around the function, and is a guard only where the statement of
/// the input was one.
pub proof fn lemma_constant_function_gets_no_guard(
    stack: Seq<Seq<char>>,
    root: NodeView,
    path: Seq<int>,
)
    requires
        is_path(root, path),
        is_function(subtree(root, path)),
        function_of(subtree(root, path)).is_const,
    ensures
        is_path(folded(stack, root), image(root, path)),
        ({
            let input = subtree(root, path);
            let output = subtree(folded(stack, root), image(root, path));
            let f = function_of(input);
            let g = function_of(output);
            let scope = scope_at(stack, root, path);
            &&& same_kind(input, output)
            &&& g.attrs == f.attrs
            &&& g.ident == f.ident
            &&& g.is_const
            &&& g.body.len() == f.body.len()
            &&& forall|i: int|
                0 <= i < f.body.len() ==> #[trigger] g.body[i] == if is_reached(root, path)
                    && !is_excluded(input) {
                    folded(scope, f.body[i])
                } else {
                    f.body[i]
                }
            &&& forall|i: int|
                0 <= i < f.body.len() ==> (#[trigger] g.body[i] is Guard <==> f.body[i] is Guard)
        }),
{
    lemma_fold_follows_paths(stack, root, path);
    let input = subtree(root, path);
    let f = function_of(input);
    let scope = scope_at(stack, root, path);
    if is_reached(root, path) && !is_excluded(input) {
        lemma_children_of_folded(scope, input);
        let g = function_of(folded(scope, input));
        assert forall|i: int| 0 <= i < f.body.len() implies (#[trigger] g.body[i] is Guard
            <==> f.body[i] is Guard) by {
            lemma_children_of_folded(scope, f.body[i]);
        }
    } else if is_reached(root, path) {
        lemma_excluded_is_untouched(scope, input);
    }
}

/// The number of guard statements in the tree.
pub open spec fn guard_count(node: NodeView) -> nat
    decreases node,
{
    match node {
        NodeView::Module(m) => guards_in(m.items),
        NodeView::Trait(t) => guards_in(t.items),
        NodeView::TraitMethod(f) => guards_in(f.body),
        NodeView::Impl(i) => guards_in(i.items),
        NodeView::ImplMethod(f) => guards_in(f.body),
        NodeView::FreeFunction(f) => guards_in(f.body),
        NodeView::MacroInvocation(m) => match m.expansion {
            Some(expansion) => guards_in(expansion),
            None => 0,
        },
        NodeView::Guard(_) => 1,
        NodeView::Other(o) => guards_in(o.children),
    }
}

/// The number of guard statements in the trees.
pub open spec fn guards_in(nodes: Seq<NodeView>) -> nat
    decreases nodes,
{
    if nodes.len() == 0 {
        0
    } else {
        guards_in(nodes.drop_last()) + guard_count(nodes.last())
    }
}

/// The number of eligible functions in the tree that the fold comes to:
/// those that are neither excluded nor constant and stand beneath no
/// excluded node.
pub open spec fn eligible_count(node: NodeView) -> nat
    decreases node,
{
    match node {
        NodeView::Module(m) => if excluded(m.attrs) {
            0
        } else {
            eligible_in(m.items)
        },
        NodeView::Trait(t) => if excluded(t.attrs) {
            0
        } else {
            eligible_in(t.items)
        },
        NodeView::Impl(i) => if excluded(i.attrs) {
            0
        } else {
            eligible_in(i.items)
        },
        NodeView::TraitMethod(f) | NodeView::ImplMethod(f) | NodeView::FreeFunction(f) => {
            if excluded(f.attrs) {
                0
            } else if f.is_const {
                eligible_in(f.body)
            } else {
                1 + eligible_in(f.body)
            }
        },
        NodeView::MacroInvocation(m) => match m.expansion {
            Some(expansion) => eligible_in(expansion),
            None => 0,
        },
        NodeView::Guard(_) => 0,
        NodeView::Other(o) => eligible_in(o.children),
    }
}

/// The number of eligible functions in the trees that the fold comes to.
pub open spec fn eligible_in(nodes: Seq<NodeView>) -> nat
    decreases nodes,
{
    if nodes.len() == 0 {
        0
    } else {
        eligible_in(nodes.drop_last()) + eligible_count(nodes.last())
    }
}

/// The transformation adds exactly one guard for each eligible function that
/// it comes to, and no other: the transformed tree holds as many guards as
/// the tree held before, and one more for each such function.
pub proof fn lemma_one_guard_for_each_eligible_function(stack: Seq<Seq<char>>, node: NodeView)
    ensures
        guard_count(folded(stack, node)) == guard_count(node) + eligible_count(node),
    decreases node,
{
    match node {
        NodeView::Module(m) => {
            lemma_one_guard_for_each_eligible_function_in(inner_scope(stack, node), m.items);
        },
        NodeView::Trait(t) => {
            lemma_one_guard_for_each_eligible_function_in(inner_scope(stack, node), t.items);
        },
        NodeView::Impl(i) => {
            lemma_one_guard_for_each_eligible_function_in(inner_scope(stack, node), i.items);
        },
        NodeView::TraitMethod(f) | NodeView::ImplMethod(f) | NodeView::FreeFunction(f) => {
            let scope = inner_scope(stack, node);
            lemma_one_guard_for_each_eligible_function_in(scope, f.body);
            lemma_guards_after_first(guard_for(scope), folded_all(scope, f.body));
        },
        NodeView::MacroInvocation(m) => {
            if let Some(expansion) = m.expansion {
                lemma_one_guard_for_each_eligible_function_in(stack, expansion);
            }
        },
        NodeView::Guard(_) => {},
        NodeView::Other(o) => {
            lemma_one_guard_for_each_eligible_function_in(stack, o.children);
        },
    }
}

/// The same, for a list of trees transformed in one scope.
pub proof fn lemma_one_guard_for_each_eligible_function_in(
    stack: Seq<Seq<char>>,
    nodes: Seq<NodeView>,
)
    ensures
        guards_in(folded_all(stack, nodes)) == guards_in(nodes) + eligible_in(nodes),
    decreases nodes,
{
    if nodes.len() > 0 {
        lemma_one_guard_for_each_eligible_function_in(stack, nodes.drop_last());
        lemma_one_guard_for_each_eligible_function(stack, nodes.last());
        assert(folded_all(stack, nodes).drop_last() =~= folded_all(stack, nodes.drop_last()));
    }
}

/// The guards in a list are those in its first tree and those in the rest.
proof fn lemma_guards_after_first(first: NodeView, rest: Seq<NodeView>)
    ensures
        guards_in(seq![first] + rest) == guard_count(first) + guards_in(rest),
    decreases rest.len(),
{
    let all = seq![first] + rest;
    if rest.len() == 0 {
        assert(all.drop_last() =~= Seq::<NodeView>::empty());
        assert(guards_in(all.drop_last()) == 0);
        assert(all.last() == first);
    } else {
        lemma_guards_after_first(first, rest.drop_last());
        assert(all.drop_last() =~= seq![first] + rest.drop_last());
        assert(all.last() == rest.last());
    }
}

/// The transformation changes a tree exactly when it comes to an eligible
/// function in it.
pub proof fn lemma_fold_changes_exactly_trees_with_eligible_functions(
    stack: Seq<Seq<char>>,
    node: NodeView,
)
    ensures
        folded(stack, node) == node <==> eligible_count(node) == 0,
{
    lemma_one_guard_for_each_eligible_function(stack, node);
    if eligible_count(node) == 0 {
        lemma_fold_without_eligible_functions(stack, node);
    }
}

/// A tree in which the fold comes to no eligible function is its own
/// transform.
proof fn lemma_fold_without_eligible_functions(stack: Seq<Seq<char>>, node: NodeView)
    requires
        eligible_count(node) == 0,
    ensures
        folded(stack, node) == node,
    decreases node,
{
    if !is_excluded(node) {
        match node {
            NodeView::Module(m) => {
                lemma_fold_all_without_eligible_functions(inner_scope(stack, node), m.items);
            },
            NodeView::Trait(t) => {
                lemma_fold_all_without_eligible_functions(inner_scope(stack, node), t.items);
            },
            NodeView::Impl(i) => {
                lemma_fold_all_without_eligible_functions(inner_scope(stack, node), i.items);
            },
            NodeView::TraitMethod(f) | NodeView::ImplMethod(f) | NodeView::FreeFunction(f) => {
                lemma_fold_all_without_eligible_functions(stack, f.body);
            },
            NodeView::MacroInvocation(m) => {
                if let Some(expansion) = m.expansion {
                    lemma_fold_all_without_eligible_functions(stack, expansion);
                }
            },
            NodeView::Guard(_) => {},
            NodeView::Other(o) => {
                lemma_fold_all_without_eligible_functions(stack, o.children);
            },
        }
    }
}

/// Trees in which the fold comes to no eligible function are their own
/// transforms.
proof fn lemma_fold_all_without_eligible_functions(stack: Seq<Seq<char>>, nodes: Seq<NodeView>)
    requires
        eligible_in(nodes) == 0,
    ensures
        folded_all(stack, nodes) == nodes,
    decreases nodes,
{
    assert forall|i: int| 0 <= i < nodes.len() implies folded(stack, nodes[i]) == nodes[i] by {
        lemma_eligible_in_bounds_each(nodes, i);
        lemma_fold_without_eligible_functions(stack, nodes[i]);
    }
    assert(folded_all(stack, nodes) =~= nodes);
}

/// No tree of a list holds more eligible functions than the list.
proof fn lemma_eligible_in_bounds_each(nodes: Seq<NodeView>, i: int)
    requires
        0 <= i < nodes.len(),
    ensures
        eligible_count(nodes[i]) <= eligible_in(nodes),
    decreases nodes.len(),
{
    if i < nodes.len() - 1 {
        lemma_eligible_in_bounds_each(nodes.drop_last(), i);
    }
}

/// Whether a function-like node stands anywhere in the tree.
pub open spec fn has_function(node: NodeView) -> bool
    decreases node,
{
    match node {
        NodeView::Module(m) => any_has_function(m.items),
        NodeView::Trait(t) => any_has_function(t.items),
        NodeView::TraitMethod(_) => true,
        NodeView::Impl(i) => any_has_function(i.items),
        NodeView::ImplMethod(_) => true,
        NodeView::FreeFunction(_) => true,
        NodeView::MacroInvocation(m) => match m.expansion {
            Some(expansion) => any_has_function(expansion),
            None => false,
        },
        NodeView::Guard(_) => false,
        NodeView::Other(o) => any_has_function(o.children),
    }
}

/// Whether a function-like node stands anywhere in one of the trees.
pub open spec fn any_has_function(nodes: Seq<NodeView>) -> bool
    decreases nodes,
{
    exists|i: int| 0 <= i < nodes.len() && has_function(#[trigger] nodes[i])
}

/// A tree without function-like nodes is its own transform.
pub proof fn lemma_fold_without_functions_is_identity(stack: Seq<Seq<char>>, node: NodeView)
    requires
        !has_function(node),
    ensures
        folded(stack, node) == node,
    decreases node,
{
    match node {
        NodeView::Module(m) => {
            lemma_fold_all_without_functions_is_identity(stack.push(m.ident), m.items);
        },
        NodeView::Trait(t) => {
            lemma_fold_all_without_functions_is_identity(stack.push(t.ident), t.items);
        },
        NodeView::Impl(i) => {
            lemma_fold_all_without_functions_is_identity(inner_scope(stack, node), i.items);
        },
        NodeView::MacroInvocation(m) => {
            if let Some(expansion) = m.expansion {
                lemma_fold_all_without_functions_is_identity(stack, expansion);
            }
        },
        NodeView::Other(o) => {
            lemma_fold_all_without_functions_is_identity(stack, o.children);
        },
        _ => {},
    }
}

/// Trees without function-like nodes are their own transforms.
pub proof fn lemma_fold_all_without_functions_is_identity(
    stack: Seq<Seq<char>>,
    nodes: Seq<NodeView>,
)
    requires
        !any_has_function(nodes),
    ensures
        folded_all(stack, nodes) == nodes,
    decreases nodes,
{
    assert forall|i: int| 0 <= i < nodes.len() implies folded(stack, nodes[i]) == nodes[i] by {
        assert(!has_function(nodes[i]));
        lemma_fold_without_functions_is_identity(stack, nodes[i]);
    }
    assert(folded_all(stack, nodes) =~= nodes);
}

} // verus!
