//! The attribute splitter: separates the maximal front run of annotation
//! pairs from the remainder of an item's token stream.

use vstd::prelude::*;

use crate::token::{
    Token, all_annotation_pairs, begins_with_annotation_pair, is_annotation_pair,
    token_is_bracket_group, token_is_marker,
};

verus! {

/// The attrs/rest decomposition of a stream: the longest prefix made of
/// annotation pairs, and every remaining token in its original order.
pub open spec fn split_spec(s: Seq<Token>) -> (Seq<Token>, Seq<Token>)
    decreases s.len(),
{
    if begins_with_annotation_pair(s) {
        let tail = split_spec(s.skip(2));
        (seq![s[0], s[1]] + tail.0, tail.1)
    } else {
        (Seq::empty(), s)
    }
}

/// Round trip: the two halves of the split, concatenated, reproduce the
/// original stream token for token.
pub proof fn lemma_split_round_trip(s: Seq<Token>)
    ensures
        split_spec(s).0 + split_spec(s).1 == s,
    decreases s.len(),
{
    if begins_with_annotation_pair(s) {
        let tail = split_spec(s.skip(2));
        lemma_split_round_trip(s.skip(2));
        assert((seq![s[0], s[1]] + tail.0) + tail.1 =~= seq![s[0], s[1]] + (tail.0 + tail.1));
        assert(seq![s[0], s[1]] + s.skip(2) =~= s);
    } else {
        assert(split_spec(s).0 + split_spec(s).1 =~= s);
    }
}

/// Maximality: the rest half never itself begins with an annotation pair,
/// so no further annotation could have been taken from it.
pub proof fn lemma_split_maximal(s: Seq<Token>)
    ensures
        !begins_with_annotation_pair(split_spec(s).1),
    decreases s.len(),
{
    if begins_with_annotation_pair(s) {
        lemma_split_maximal(s.skip(2));
    }
}

/// The attrs half consists of annotation pairs and nothing else.
pub proof fn lemma_split_attrs_all_pairs(s: Seq<Token>)
    ensures
        all_annotation_pairs(split_spec(s).0),
    decreases s.len(),
{
    if begins_with_annotation_pair(s) {
        lemma_split_attrs_all_pairs(s.skip(2));
        let attrs = split_spec(s).0;
        assert(attrs.skip(2) =~= split_spec(s.skip(2)).0);
    }
}

/// Splitting a stream that starts with a run of annotation pairs consumes
/// that run whole and then splits the remainder.
pub proof fn lemma_split_pairs_prefix(a: Seq<Token>, s: Seq<Token>)
    requires
        all_annotation_pairs(a),
    ensures
        split_spec(a + s).0 == a + split_spec(s).0,
        split_spec(a + s).1 == split_spec(s).1,
    decreases a.len(),
{
    if a.len() == 0 {
        assert(a + s =~= s);
        assert(a + split_spec(s).0 =~= split_spec(s).0);
    } else {
        assert((a + s)[0] == a[0]);
        assert((a + s)[1] == a[1]);
        assert((a + s).skip(2) =~= a.skip(2) + s);
        lemma_split_pairs_prefix(a.skip(2), s);
        assert(split_spec(a + s).0 =~= a + split_spec(s).0);
    }
}

/// Whether positions `k` and `k + 1` of the stream hold one annotation pair.
fn pair_at(item: &Vec<Token>, k: usize) -> (r: bool)
    requires
        k + 2 <= item.len(),
    ensures
        r == is_annotation_pair(item@[k as int], item@[k as int + 1]),
{
    token_is_marker(&item[k]) && token_is_bracket_group(&item[k + 1])
}

/// Splits an item's stream into its leading attribute annotations and the
/// remaining tokens. Scanning stops at the first position where no
/// annotation pair follows; a token peeked there is kept at the front of
/// the rest, so the operation is total and never drops or reorders a token.
pub fn split_attrs(item: Vec<Token>) -> (r: (Vec<Token>, Vec<Token>))
    ensures
        r.0@ == split_spec(item@).0,
        r.1@ == split_spec(item@).1,
        r.0@ + r.1@ == item@,
{
    let mut item = item;
    let mut k: usize = 0;
    proof {
        assert(item@.skip(0) =~= item@);
    }
    while item.len() - k >= 2 && pair_at(&item, k)
        invariant
            k <= item.len(),
            split_spec(item@).0 == item@.subrange(0, k as int) + split_spec(item@.skip(k as int)).0,
            split_spec(item@).1 == split_spec(item@.skip(k as int)).1,
        decreases item.len() - k,
    {
        proof {
            let tail = item@.skip(k as int);
            assert(tail[0] == item@[k as int]);
            assert(tail[1] == item@[k as int + 1]);
            assert(tail.skip(2) =~= item@.skip(k as int + 2));
            assert(item@.subrange(0, k as int) + split_spec(tail).0 =~= item@.subrange(
                0,
                k as int + 2,
            ) + split_spec(item@.skip(k as int + 2)).0);
        }
        k = k + 2;
    }
    proof {
        let tail = item@.skip(k as int);
        assert(!begins_with_annotation_pair(tail));
        assert(split_spec(item@).0 =~= item@.subrange(0, k as int));
        assert(split_spec(item@).1 =~= tail);
        lemma_split_round_trip(item@);
    }
    let rest = item.split_off(k);
    (item, rest)
}

} // verus!
