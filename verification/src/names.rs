//! The qualified-name tracker: a stack of path segments.

use vstd::prelude::*;
use vstd::string::*;

verus! {

/// The separator between two segments of a qualified name.
pub open spec fn separator() -> Seq<char> {
    seq![':', ':']
}

/// The segments joined by `::`, the first segment first.
pub open spec fn join(segments: Seq<Seq<char>>) -> Seq<char>
    decreases segments.len(),
{
    if segments.len() == 0 {
        Seq::empty()
    } else if segments.len() == 1 {
        segments[0]
    } else {
        join(segments.drop_last()) + separator() + segments.last()
    }
}

/// The text between the implementing type and the implemented trait in the
/// segment of an implementation block.
pub open spec fn as_keyword() -> Seq<char> {
    seq![' ', 'a', 's', ' ']
}

/// The segment that names an implementation block: `<type> as <trait>`, or
/// the type alone where no trait is implemented. Both are given in textual
/// form.
pub open spec fn impl_segment(self_ty: Seq<char>, trait_path: Option<Seq<char>>) -> Seq<char> {
    match trait_path {
        Some(path) => self_ty + as_keyword() + path,
        None => self_ty,
    }
}

/// The model of an optional string.
pub open spec fn opt_string_view(s: Option<String>) -> Option<Seq<char>> {
    match s {
        Some(s) => Some(s@),
        None => None,
    }
}

/// Builds the segment that names an implementation block.
pub fn impl_segment_of(self_ty: &String, trait_path: &Option<String>) -> (segment: String)
    ensures
        segment@ == impl_segment(self_ty@, opt_string_view(*trait_path)),
{
    let mut segment = self_ty.clone();
    match trait_path {
        Some(path) => {
            segment.append(" as ");
            segment.append(path.as_str());
            proof {
                reveal_strlit(" as ");
                assert(" as "@ =~= as_keyword());
            }
        },
        None => {},
    }
    segment
}

/// The traversal state: the names of the scopes that are open, outermost first.
pub struct Flamer {
    pub id_stack: Vec<String>,
}

impl View for Flamer {
    type V = Seq<Seq<char>>;

    open spec fn view(&self) -> Seq<Seq<char>> {
        self.id_stack.deep_view()
    }
}

impl Default for Flamer {
    /// A tracker with no open scope.
    fn default() -> (flamer: Flamer)
        ensures
            flamer@ == Seq::<Seq<char>>::empty(),
    {
        Flamer::new()
    }
}

impl Flamer {
    /// A tracker with no open scope.
    pub fn new() -> (flamer: Flamer)
        ensures
            flamer@ == Seq::<Seq<char>>::empty(),
    {
        let flamer = Flamer { id_stack: Vec::new() };
        assert(flamer@ =~= Seq::<Seq<char>>::empty());
        flamer
    }

    /// Opens a scope named `ident`.
    pub fn push(&mut self, ident: String)
        ensures
            final(self)@ == old(self)@.push(ident@),
    {
        self.id_stack.push(ident);
        assert(self@ =~= old(self)@.push(ident@));
    }

    /// Closes the innermost scope; with no scope open, nothing changes.
    pub fn pop(&mut self)
        ensures
            old(self)@.len() > 0 ==> final(self)@ == old(self)@.drop_last(),
            old(self)@.len() == 0 ==> final(self)@ == old(self)@,
    {
        let _ = self.id_stack.pop();
        assert(old(self)@.len() > 0 ==> self@ =~= old(self)@.drop_last());
        assert(old(self)@.len() == 0 ==> self@ =~= old(self)@);
    }

    /// The current path: the open scopes joined by `::`.
    pub fn name(&self) -> (name: String)
        ensures
            name@ == join(self@),
    {
        let mut name = String::new();
        let n: usize = self.id_stack.len();
        let mut i: usize = 0;
        while i < n
            invariant
                n == self.id_stack.len(),
                i <= n,
                name@ == join(self@.take(i as int)),
            decreases n - i,
        {
            if i > 0 {
                name.append("::");
            }
            name.append(self.id_stack[i].as_str());
            proof {
                reveal_strlit("::");
                assert("::"@ =~= separator());
                let prefix = self@.take(i + 1);
                assert(prefix.drop_last() =~= self@.take(i as int));
                assert(prefix.last() == self.id_stack[i as int]@);
                if i == 0 {
                    assert(name@ =~= prefix[0]);
                }
            }
            i = i + 1;
        }
        assert(self@.take(n as int) =~= self@);
        name
    }
}

} // verus!
