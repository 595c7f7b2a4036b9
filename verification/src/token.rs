//! The token algebra: the atomic lexical units a stream is made of, and
//! the predicates that recognize the shape of an attribute annotation.

use vstd::prelude::*;

verus! {

/// Whether a punctuation character is joined to the following token or
/// stands apart from it. The splitting logic never reads this flag; it is
/// carried so that a spliced stream reproduces its input token for token.
#[derive(Clone, Copy, PartialEq, Eq, Debug)]
pub enum Spacing {
    Joint,
    Alone,
}

/// The delimiter kind of a group token.
#[derive(Clone, Copy, PartialEq, Eq, Debug)]
pub enum DelimKind {
    Parenthesis,
    Bracket,
    Brace,
    /// An implicit delimiter with no visible character.
    Invisible,
}

/// One token of a stream: a punctuation mark, a delimited group carrying
/// a nested stream, an identifier, or a literal. Identifier and literal
/// text is carried opaquely and never inspected.
#[derive(PartialEq, Eq, Debug)]
pub enum Token {
    Punct { ch: char, spacing: Spacing },
    Group { delim: DelimKind, inner: Vec<Token> },
    Ident { text: String },
    Literal { text: String },
}

/// The token that introduces an attribute annotation: the `#` punctuation
/// mark, with either spacing.
pub open spec fn is_marker(t: Token) -> bool {
    match t {
        Token::Punct { ch, .. } => ch == '#',
        _ => false,
    }
}

/// A group delimited by square brackets, whatever it contains.
pub open spec fn is_bracket_group(t: Token) -> bool {
    match t {
        Token::Group { delim, .. } => delim == DelimKind::Bracket,
        _ => false,
    }
}

/// Two adjacent tokens form one attribute annotation: the marker
/// immediately followed by a bracket-delimited group.
pub open spec fn is_annotation_pair(a: Token, b: Token) -> bool {
    is_marker(a) && is_bracket_group(b)
}

/// The stream's first two tokens form an annotation pair.
pub open spec fn begins_with_annotation_pair(s: Seq<Token>) -> bool {
    s.len() >= 2 && is_annotation_pair(s[0], s[1])
}

/// The stream consists of annotation pairs and nothing else.
pub open spec fn all_annotation_pairs(s: Seq<Token>) -> bool
    decreases s.len(),
{
    if s.len() == 0 {
        true
    } else {
        begins_with_annotation_pair(s) && all_annotation_pairs(s.skip(2))
    }
}

/// Recognizes the annotation marker.
pub fn token_is_marker(t: &Token) -> (r: bool)
    ensures
        r == is_marker(*t),
{
    match t {
        Token::Punct { ch, .. } => *ch == '#',
        _ => false,
    }
}

/// Recognizes a bracket-delimited group.
pub fn token_is_bracket_group(t: &Token) -> (r: bool)
    ensures
        r == is_bracket_group(*t),
{
    match t {
        Token::Group { delim: DelimKind::Bracket, .. } => true,
        _ => false,
    }
}

} // verus!
