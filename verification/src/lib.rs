//! Scoped profiling instrumentation for syntax trees.
//!
//! [`flame`] rewrites a syntax tree so that every eligible function in it
//! opens a profiling guard as the first statement of its body. The guard is
//! named by the function's qualified path: the names of the modules, traits,
//! implementation blocks and functions around it, and its own, joined by
//! `::`. A node that carries the entry annotation `flame` or the opt-out
//! annotation `noflame` is left untouched with everything beneath it, and a
//! constant function never gets a guard.
//!
//! The tree is the library's own ([`syntax::SyntaxNode`]): a host converts
//! its tree, hands over the tokens of the annotation's arguments, and renders
//! each [`syntax::GuardStatement`] of the result as a call of its runtime.

use vstd::prelude::*;

pub mod args;
pub mod exclusion;
pub mod guard;
pub mod laws;
pub mod names;
pub mod paths;
pub mod syntax;
pub mod transform;

use crate::args::{is_first_error, segments_of, tokens_view, well_formed, ArgToken, ParseError};
use crate::names::Flamer;
use crate::syntax::SyntaxNode;
use crate::transform::folded;

verus! {

/// The entry annotation: transforms the annotated tree `code`.
///
/// `attrs` are the tokens of the annotation's arguments. Where they are a
/// well-formed list of string literals, these seed the stack, outermost
/// first, and the result is the transformed tree. Where they are not, the
/// tree is not transformed and the error points at the first token that is
/// out of place.
pub fn flame(attrs: &[ArgToken], code: SyntaxNode) -> (res: Result<SyntaxNode, ParseError>)
    ensures
        match res {
            Ok(out) => well_formed(tokens_view(attrs@)) && out@ == folded(
                segments_of(tokens_view(attrs@)),
                code@,
            ),
            Err(error) => is_first_error(tokens_view(attrs@), error),
        },
{
    match Flamer::parse(attrs) {
        Ok(flamer) => {
            let mut flamer = flamer;
            Ok(flamer.fold_node(code))
        },
        Err(error) => Err(error),
    }
}

/// The opt-out annotation: hands the annotated tree back as it is.
pub fn noflame(_attrs: &[ArgToken], code: SyntaxNode) -> (out: SyntaxNode)
    ensures
        out == code,
{
    code
}

} // verus!
