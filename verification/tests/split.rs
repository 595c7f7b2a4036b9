//! Behaviour of the attribute splitter on concrete token streams.

use add_syntax::split::split_attrs;
use add_syntax::token::{DelimKind, Spacing, Token};

fn ident(text: &str) -> Token {
    Token::Ident { text: text.to_string() }
}

fn punct(ch: char) -> Token {
    Token::Punct { ch, spacing: Spacing::Alone }
}

fn group(delim: DelimKind, inner: Vec<Token>) -> Token {
    Token::Group { delim, inner }
}

/// The two tokens of one attribute annotation: `#[name]`.
fn annotation(name: &str) -> Vec<Token> {
    vec![punct('#'), group(DelimKind::Bracket, vec![ident(name)])]
}

fn concat(streams: Vec<Vec<Token>>) -> Vec<Token> {
    let mut out = Vec::new();
    for s in streams {
        out.extend(s);
    }
    out
}

#[test]
fn split_empty_yields_two_empty_streams() {
    let (attrs, rest) = split_attrs(Vec::new());
    assert_eq!(attrs, Vec::new());
    assert_eq!(rest, Vec::new());
}

#[test]
fn split_without_leading_annotations_returns_input_as_rest() {
    let item = vec![ident("struct"), ident("Foo"), punct(';')];
    let (attrs, rest) = split_attrs(item);
    assert_eq!(attrs, Vec::new());
    assert_eq!(rest, vec![ident("struct"), ident("Foo"), punct(';')]);
}

#[test]
fn split_consumes_a_stream_of_annotations_whole() {
    let item = concat(vec![annotation("a"), annotation("b")]);
    let (attrs, rest) = split_attrs(item);
    assert_eq!(attrs, concat(vec![annotation("a"), annotation("b")]));
    assert_eq!(rest, Vec::new());
}

#[test]
fn split_dangling_annotation_goes_to_attrs() {
    let (attrs, rest) = split_attrs(annotation("a"));
    assert_eq!(attrs, annotation("a"));
    assert_eq!(rest, Vec::new());
}

#[test]
fn split_keeps_peeked_tokens_at_front_of_rest() {
    let item = vec![punct('#'), ident("x"), ident("y")];
    let (attrs, rest) = split_attrs(item);
    assert_eq!(attrs, Vec::new());
    assert_eq!(rest, vec![punct('#'), ident("x"), ident("y")]);
}

#[test]
fn split_keeps_a_lone_trailing_marker() {
    let item = concat(vec![annotation("a"), vec![punct('#')]]);
    let (attrs, rest) = split_attrs(item);
    assert_eq!(attrs, annotation("a"));
    assert_eq!(rest, vec![punct('#')]);
}

#[test]
fn split_round_trip_reproduces_the_input() {
    let item = concat(vec![
        annotation("a"),
        vec![ident("impl"), ident("Drop"), group(DelimKind::Brace, vec![ident("x")])],
    ]);
    let expected = concat(vec![
        annotation("a"),
        vec![ident("impl"), ident("Drop"), group(DelimKind::Brace, vec![ident("x")])],
    ]);
    let (attrs, rest) = split_attrs(item);
    assert_eq!(concat(vec![attrs, rest]), expected);
}

#[test]
fn split_stops_at_first_non_annotation() {
    let item = concat(vec![annotation("a"), vec![ident("x")], annotation("b")]);
    let (attrs, rest) = split_attrs(item);
    assert_eq!(attrs, annotation("a"));
    assert_eq!(rest, concat(vec![vec![ident("x")], annotation("b")]));
}

#[test]
fn split_recognizes_a_joint_marker_and_keeps_its_spacing() {
    let joint_marker = Token::Punct { ch: '#', spacing: Spacing::Joint };
    let item = vec![joint_marker, group(DelimKind::Bracket, vec![ident("a")])];
    let (attrs, rest) = split_attrs(item);
    let expected_marker = Token::Punct { ch: '#', spacing: Spacing::Joint };
    assert_eq!(attrs, vec![expected_marker, group(DelimKind::Bracket, vec![ident("a")])]);
    assert_eq!(rest, Vec::new());
}

#[test]
fn split_ignores_a_non_marker_punctuation() {
    let item = vec![punct('@'), group(DelimKind::Bracket, vec![ident("a")])];
    let (attrs, rest) = split_attrs(item);
    assert_eq!(attrs, Vec::new());
    assert_eq!(rest, vec![punct('@'), group(DelimKind::Bracket, vec![ident("a")])]);
}

#[test]
fn split_ignores_a_marker_before_a_paren_group() {
    let item = vec![punct('#'), group(DelimKind::Parenthesis, vec![ident("a")])];
    let (attrs, rest) = split_attrs(item);
    assert_eq!(attrs, Vec::new());
    assert_eq!(rest, vec![punct('#'), group(DelimKind::Parenthesis, vec![ident("a")])]);
}

#[test]
fn split_never_recurses_into_group_contents() {
    let inner = concat(vec![annotation("hidden"), vec![ident("x")]]);
    let item = vec![group(DelimKind::Brace, inner), punct('#')];
    let (attrs, rest) = split_attrs(item);
    let expected_inner = concat(vec![annotation("hidden"), vec![ident("x")]]);
    assert_eq!(attrs, Vec::new());
    assert_eq!(rest, vec![group(DelimKind::Brace, expected_inner), punct('#')]);
}
