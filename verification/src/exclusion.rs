//! The exclusion filter: which nodes the transformation leaves alone.

use crate::names::Flamer;
use crate::syntax::{attrs_view, Attribute, AttributeView};
use vstd::prelude::*;
use vstd::string::*;

verus! {

/// The name of the annotation that starts the transformation. A node that
/// still carries it will be transformed on its own.
pub open spec fn entry_annotation() -> Seq<char> {
    "flame"@
}

/// The name of the annotation that opts a node out.
pub open spec fn opt_out_annotation() -> Seq<char> {
    "noflame"@
}

/// Whether an attribute of this name stops the transformation.
pub open spec fn is_marker(name: Seq<char>) -> bool {
    name == entry_annotation() || name == opt_out_annotation()
}

/// Whether a node with these attributes is left untouched, with everything
/// beneath it: one of them is the entry or the opt-out annotation.
pub open spec fn excluded(attrs: Seq<AttributeView>) -> bool {
    exists|i: int| 0 <= i < attrs.len() && is_marker(#[trigger] attrs[i].name)
}

impl Flamer {
    /// Whether a node with the attributes `attrs` must be left untouched.
    pub fn is_noflame(&self, attrs: &[Attribute]) -> (skip: bool)
        ensures
            skip == excluded(attrs_view(attrs@)),
    {
        let entry = String::from_str("flame");
        let opt_out = String::from_str("noflame");
        let n: usize = attrs.len();
        let mut i: usize = 0;
        while i < n
            invariant
                n == attrs@.len(),
                i <= n,
                entry@ == entry_annotation(),
                opt_out@ == opt_out_annotation(),
                forall|j: int| 0 <= j < i ==> !is_marker(#[trigger] attrs@[j]@.name),
            decreases n - i,
        {
            if attrs[i].name == entry || attrs[i].name == opt_out {
                assert(is_marker(attrs_view(attrs@)[i as int].name));
                return true;
            }
            i = i + 1;
        }
        assert forall|j: int| 0 <= j < attrs@.len() implies !is_marker(
            #[trigger] attrs_view(attrs@)[j].name,
        ) by {
            assert(!is_marker(attrs@[j]@.name));
        }
        false
    }
}

} // verus!
