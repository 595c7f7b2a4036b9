//! The two splice operators: `prepend` inserts injected tokens between an
//! item's leading attribute annotations and its own syntax; `append` adds
//! them at the literal end of the stream.

use vstd::prelude::*;

use crate::split::{
    lemma_split_attrs_all_pairs, lemma_split_maximal, lemma_split_pairs_prefix,
    lemma_split_round_trip, split_attrs, split_spec,
};
use crate::token::{Token, begins_with_annotation_pair, is_bracket_group, is_marker};

verus! {

/// The stream produced by a prepend: the item's leading annotations, then
/// the injected tokens, then the remainder of the item.
pub open spec fn prepend_spec(attr: Seq<Token>, item: Seq<Token>) -> Seq<Token> {
    split_spec(item).0 + attr + split_spec(item).1
}

/// The stream produced by an append: the whole item, then the injected
/// tokens.
pub open spec fn append_spec(attr: Seq<Token>, item: Seq<Token>) -> Seq<Token> {
    item + attr
}

/// Splices the injected tokens immediately after any attribute
/// annotations already on the item and immediately before the item's own
/// syntax. The injected tokens are accepted verbatim, whatever their
/// shape.
pub fn prepend(attr: Vec<Token>, item: Vec<Token>) -> (r: Vec<Token>)
    ensures
        r@ == prepend_spec(attr@, item@),
{
    let ghost attr0 = attr@;
    let ghost item0 = item@;
    let mut attr = attr;
    let (mut item_attrs, mut rest) = split_attrs(item);
    item_attrs.append(&mut attr);
    item_attrs.append(&mut rest);
    proof {
        assert(item_attrs@ =~= prepend_spec(attr0, item0));
    }
    item_attrs
}

/// Splices the injected tokens at the literal end of the item's stream,
/// after any trailing syntax; no position inside the item is ever chosen.
pub fn append(attr: Vec<Token>, item: Vec<Token>) -> (r: Vec<Token>)
    ensures
        r@ == append_spec(attr@, item@),
{
    let mut attr = attr;
    let mut item = item;
    item.append(&mut attr);
    item
}

/// Prepending an empty stream returns the item unchanged.
pub proof fn lemma_prepend_empty(item: Seq<Token>)
    ensures
        prepend_spec(Seq::empty(), item) == item,
{
    lemma_split_round_trip(item);
    assert(prepend_spec(Seq::empty(), item) =~= item);
}

/// Appending an empty stream returns the item unchanged.
pub proof fn lemma_append_empty(item: Seq<Token>)
    ensures
        append_spec(Seq::empty(), item) == item,
{
    assert(append_spec(Seq::empty(), item) =~= item);
}

/// A prepend preserves the item's existing annotations verbatim and in
/// order: the output begins with exactly them, and the injected tokens
/// follow immediately after.
pub proof fn lemma_prepend_preserves_attrs(attr: Seq<Token>, item: Seq<Token>)
    ensures
        prepend_spec(attr, item).subrange(0, split_spec(item).0.len() as int) == split_spec(
            item,
        ).0,
        prepend_spec(attr, item).subrange(
            split_spec(item).0.len() as int,
            split_spec(item).0.len() + attr.len() as int,
        ) == attr,
{
    let a = split_spec(item).0;
    assert(prepend_spec(attr, item).subrange(0, a.len() as int) =~= a);
    assert(prepend_spec(attr, item).subrange(a.len() as int, a.len() + attr.len() as int) =~= attr);
}

/// The appended tokens cannot complete a new annotation pair at the
/// boundary where the item's stream ends. This fails only when the rest
/// half of the item's split is empty and the appended tokens themselves
/// begin with an annotation pair, or when it is a lone marker that the
/// first appended token would turn into one.
pub open spec fn append_keeps_boundary(attr: Seq<Token>, rest: Seq<Token>) -> bool {
    if rest.len() == 0 {
        !begins_with_annotation_pair(attr)
    } else if rest.len() == 1 {
        !(is_marker(rest[0]) && attr.len() >= 1 && is_bracket_group(attr[0]))
    } else {
        true
    }
}

/// An append never changes the item's leading annotations: splitting the
/// output yields the same attrs half as splitting the item, provided the
/// appended tokens cannot complete a new annotation pair at the boundary.
pub proof fn lemma_append_preserves_attrs(attr: Seq<Token>, item: Seq<Token>)
    requires
        append_keeps_boundary(attr, split_spec(item).1),
    ensures
        split_spec(append_spec(attr, item)).0 == split_spec(item).0,
{
    let a = split_spec(item).0;
    let rest = split_spec(item).1;
    lemma_split_round_trip(item);
    lemma_split_attrs_all_pairs(item);
    lemma_split_maximal(item);
    assert(item + attr =~= a + (rest + attr));
    lemma_split_pairs_prefix(a, rest + attr);
    if rest.len() == 0 {
        assert(rest + attr =~= attr);
    } else {
        assert((rest + attr)[0] == rest[0]);
        if rest.len() == 1 {
            assert(rest + attr =~= seq![rest[0]] + attr);
        } else {
            assert((rest + attr)[1] == rest[1]);
        }
    }
    assert(!begins_with_annotation_pair(rest + attr));
    assert(a + split_spec(rest + attr).0 =~= a);
}

} // verus!
