use flamer::args::{ArgToken, Expected, ParseError};
use flamer::names::Flamer;
use flamer::syntax::{Function, Other, SyntaxNode};

fn lit(value: &str) -> ArgToken {
    ArgToken::StrLit(String::from(value))
}

fn stack(flamer: &Flamer) -> Vec<&str> {
    flamer.id_stack.iter().map(|s| s.as_str()).collect()
}

fn error(position: usize, expected: Expected) -> ParseError {
    ParseError { position, expected }
}

#[test]
fn no_argument_gives_an_empty_stack() {
    let flamer = Flamer::parse(&[]).unwrap();
    assert!(flamer.id_stack.is_empty());
    assert_eq!(flamer.name(), "");
}

#[test]
fn one_literal_gives_one_segment() {
    let flamer = Flamer::parse(&[lit("top")]).unwrap();
    assert_eq!(stack(&flamer), vec!["top"]);
}

#[test]
fn literals_become_segments_in_order() {
    let tokens = [lit("a"), ArgToken::Comma, lit("b"), ArgToken::Comma, lit("c")];
    let flamer = Flamer::parse(&tokens).unwrap();
    assert_eq!(stack(&flamer), vec!["a", "b", "c"]);
    assert_eq!(flamer.name(), "a::b::c");
}

#[test]
fn a_comma_may_follow_the_last_literal() {
    let tokens = [lit("a"), ArgToken::Comma, lit("b"), ArgToken::Comma];
    let flamer = Flamer::parse(&tokens).unwrap();
    assert_eq!(stack(&flamer), vec!["a", "b"]);
}

#[test]
fn an_empty_literal_is_a_segment() {
    let flamer = Flamer::parse(&[lit("")]).unwrap();
    assert_eq!(stack(&flamer), vec![""]);
}

#[test]
fn a_leading_comma_is_rejected() {
    let tokens = [ArgToken::Comma, lit("a")];
    assert_eq!(Flamer::parse(&tokens).err(), Some(error(0, Expected::StringLiteral)));
}

#[test]
fn a_lone_comma_is_rejected() {
    assert_eq!(Flamer::parse(&[ArgToken::Comma]).err(), Some(error(0, Expected::StringLiteral)));
}

#[test]
fn two_literals_in_a_row_are_rejected() {
    let tokens = [lit("a"), lit("b")];
    assert_eq!(Flamer::parse(&tokens).err(), Some(error(1, Expected::Comma)));
}

#[test]
fn two_commas_in_a_row_are_rejected() {
    let tokens = [lit("a"), ArgToken::Comma, ArgToken::Comma];
    assert_eq!(Flamer::parse(&tokens).err(), Some(error(2, Expected::StringLiteral)));
}

#[test]
fn another_token_in_place_of_a_literal_is_rejected() {
    let tokens = [lit("a"), ArgToken::Comma, ArgToken::Other];
    assert_eq!(Flamer::parse(&tokens).err(), Some(error(2, Expected::StringLiteral)));
    assert_eq!(Flamer::parse(&[ArgToken::Other]).err(), Some(error(0, Expected::StringLiteral)));
}

#[test]
fn another_token_in_place_of_a_comma_is_rejected() {
    let tokens = [lit("a"), ArgToken::Other, lit("b")];
    assert_eq!(Flamer::parse(&tokens).err(), Some(error(1, Expected::Comma)));
}

#[test]
fn the_first_misplaced_token_is_reported() {
    let tokens = [lit("a"), ArgToken::Comma, ArgToken::Other, ArgToken::Other, ArgToken::Comma];
    assert_eq!(Flamer::parse(&tokens).err(), Some(error(2, Expected::StringLiteral)));
}

#[test]
fn messages_name_what_was_expected() {
    assert_eq!(error(0, Expected::StringLiteral).message(), "expected string literal");
    assert_eq!(error(1, Expected::Comma).message(), "expected `,`");
}

fn plain_function() -> SyntaxNode {
    SyntaxNode::FreeFunction(Function {
        attrs: vec![],
        ident: String::from("f"),
        is_const: false,
        body: vec![SyntaxNode::Other(Other { tokens: String::from("1"), children: vec![] })],
    })
}

#[test]
fn malformed_arguments_abort_the_transformation() {
    let result = flamer::flame(&[ArgToken::Other], plain_function());
    assert_eq!(result, Err(error(0, Expected::StringLiteral)));
    let result = flamer::flame(&[lit("a"), lit("b")], plain_function());
    assert_eq!(result, Err(error(1, Expected::Comma)));
}

#[test]
fn noflame_hands_the_tree_back() {
    assert_eq!(flamer::noflame(&[], plain_function()), plain_function());
    assert_eq!(flamer::noflame(&[ArgToken::Other], plain_function()), plain_function());
}
