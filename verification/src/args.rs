//! The argument parser: from the tokens attached to the entry annotation to
//! the name segments that seed the stack.
//!
//! The arguments are string literals separated by commas; a comma may follow
//! the last literal, and there may be no argument at all.

use crate::names::Flamer;
use vstd::prelude::*;

verus! {

/// One token of the annotation's arguments, as the host's tokenizer saw it.
#[derive(Debug, PartialEq, Eq)]
pub enum ArgToken {
    /// A string literal, with the value that it denotes.
    StrLit(String),
    /// A comma.
    Comma,
    /// Any other token.
    Other,
}

/// The model of an [`ArgToken`].
pub enum ArgTokenView {
    StrLit(Seq<char>),
    Comma,
    Other,
}

impl View for ArgToken {
    type V = ArgTokenView;

    open spec fn view(&self) -> ArgTokenView {
        match self {
            ArgToken::StrLit(value) => ArgTokenView::StrLit(value@),
            ArgToken::Comma => ArgTokenView::Comma,
            ArgToken::Other => ArgTokenView::Other,
        }
    }
}

/// The models of a list of tokens.
pub open spec fn tokens_view(tokens: Seq<ArgToken>) -> Seq<ArgTokenView> {
    Seq::new(tokens.len(), |i: int| tokens[i]@)
}

/// What the parser wanted to see where it failed.
#[derive(Debug, Clone, Copy, PartialEq, Eq, Structural)]
pub enum Expected {
    StringLiteral,
    Comma,
}

/// A malformed argument list: the index of the first token that is out of
/// place, and what should have stood there.
#[derive(Debug, Clone, Copy, PartialEq, Eq, Structural)]
pub struct ParseError {
    pub position: usize,
    pub expected: Expected,
}

/// What the grammar wants at index `i`: literals at the even indices, commas
/// at the odd ones.
pub open spec fn expected_at(i: int) -> Expected {
    if i % 2 == 0 {
        Expected::StringLiteral
    } else {
        Expected::Comma
    }
}

/// Whether the token at index `i` is what the grammar wants there.
pub open spec fn fits(tokens: Seq<ArgTokenView>, i: int) -> bool {
    match expected_at(i) {
        Expected::StringLiteral => tokens[i] is StrLit,
        Expected::Comma => tokens[i] is Comma,
    }
}

/// Whether the tokens are a well-formed argument list.
pub open spec fn well_formed(tokens: Seq<ArgTokenView>) -> bool {
    forall|i: int| 0 <= i < tokens.len() ==> fits(tokens, i)
}

/// The segments that a well-formed argument list denotes: the values of its
/// literals, in order.
pub open spec fn segments_of(tokens: Seq<ArgTokenView>) -> Seq<Seq<char>> {
    Seq::new(((tokens.len() + 1) / 2) as nat, |k: int| tokens[2 * k]->StrLit_0)
}

/// Whether `error` is the error of this argument list: it points at the first
/// token that is out of place and names what the grammar wants there.
pub open spec fn is_first_error(tokens: Seq<ArgTokenView>, error: ParseError) -> bool {
    &&& error.position < tokens.len()
    &&& !fits(tokens, error.position as int)
    &&& forall|i: int| 0 <= i < error.position ==> fits(tokens, i)
    &&& error.expected == expected_at(error.position as int)
}

impl ParseError {
    /// The diagnostic for this error.
    pub fn message(&self) -> (text: String)
        ensures
            self.expected == Expected::StringLiteral ==> text@ == "expected string literal"@,
            self.expected == Expected::Comma ==> text@ == "expected `,`"@,
    {
        match self.expected {
            Expected::StringLiteral => "expected string literal".to_owned(),
            Expected::Comma => "expected `,`".to_owned(),
        }
    }
}

impl Flamer {
    /// Parses the arguments of the entry annotation into a tracker whose
    /// stack holds the segments that they name.
    ///
    /// Succeeds exactly on the well-formed argument lists; otherwise the
    /// error points at the first token that is out of place.
    pub fn parse(input: &[ArgToken]) -> (res: Result<Flamer, ParseError>)
        ensures
            match res {
                Ok(flamer) => well_formed(tokens_view(input@)) && flamer@ == segments_of(
                    tokens_view(input@),
                ),
                Err(error) => is_first_error(tokens_view(input@), error),
            },
    {
        let ghost tokens = tokens_view(input@);
        let mut flamer = Flamer::new();
        let n: usize = input.len();
        let mut i: usize = 0;
        let mut want_literal = true;
        while i < n
            invariant
                n == input@.len(),
                tokens == tokens_view(input@),
                i <= n,
                want_literal == (i % 2 == 0),
                forall|j: int| 0 <= j < i ==> fits(tokens, j),
                flamer@ == segments_of(tokens.take(i as int)),
            decreases n - i,
        {
            let ghost seen = flamer@;
            match &input[i] {
                ArgToken::StrLit(value) => {
                    if !want_literal {
                        return Err(ParseError { position: i, expected: Expected::Comma });
                    }
                    flamer.push(value.clone());
                    assert(flamer@ =~= segments_of(tokens.take(i + 1)));
                },
                ArgToken::Comma => {
                    if want_literal {
                        return Err(ParseError { position: i, expected: Expected::StringLiteral });
                    }
                    assert(flamer@ =~= segments_of(tokens.take(i + 1)));
                },
                ArgToken::Other => {
                    let expected = if want_literal {
                        Expected::StringLiteral
                    } else {
                        Expected::Comma
                    };
                    return Err(ParseError { position: i, expected });
                },
            }
            want_literal = !want_literal;
            i = i + 1;
        }
        assert(tokens.take(n as int) =~= tokens);
        Ok(flamer)
    }
}

} // verus!
