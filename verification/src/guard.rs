//! The guard synthesizer: the statement that opens a profiling guard.
//!
//! The guard is bound to the scope of the body that it opens. It is the first
//! statement of the body, bound to a local that is never read, and it ends
//! when control leaves the body, whether by running off its end, by an early
//! return or by unwinding. The statements that the body held follow the guard
//! in their order, so the value of the body is still that of its last
//! expression.

use crate::names::join;
use crate::syntax::{nodes_view, GuardStatement, GuardStatementView, NodeView, SyntaxNode};
use vstd::prelude::*;

verus! {

/// The guard statement for the function whose scope is `scope`: its name is
/// the scope joined by `::`.
pub open spec fn guard_for(scope: Seq<Seq<char>>) -> NodeView {
    NodeView::Guard(GuardStatementView { name: join(scope) })
}

/// The statement that opens the guard named `name`.
pub fn synthesize_guard(name: String) -> (statement: SyntaxNode)
    ensures
        statement@ == NodeView::Guard(GuardStatementView { name: name@ }),
{
    SyntaxNode::Guard(GuardStatement { name })
}

/// A body that holds the guard named `name` and nothing else yet: the
/// statements of the instrumented function are to follow it.
pub fn guarded_body(name: String) -> (body: Vec<SyntaxNode>)
    ensures
        nodes_view(body@) == seq![NodeView::Guard(GuardStatementView { name: name@ })],
{
    let mut body: Vec<SyntaxNode> = Vec::new();
    body.push(synthesize_guard(name));
    assert(nodes_view(body@) =~= seq![NodeView::Guard(GuardStatementView { name: name@ })]);
    body
}

} // verus!
