//! Cutting the long-form text of a record into room tokens.

use crate::model::ROOM_LEN;
use regex::Regex;
use vstd::prelude::*;
use vstd::string::StrSliceExecFns;

verus! {

/// The pieces that splitting `text` at every match of the regular expression `pattern`
/// yields, in order; `None` where the expression is rejected.
pub uninterp spec fn pattern_split(pattern: Seq<char>, text: Seq<char>) -> Option<Seq<Seq<char>>>;

/// Compiles `pattern` with `regex::Regex::new` and walks `regex::Regex::split` over `text`.
///
/// Nothing is proved of this function. Its contract gives the outcome its name,
/// [`pattern_split`]: the same pattern and text always yield the same pieces, and
/// `None` comes back exactly when `Regex::new` reports an error.
#[verifier::external_body]
pub(crate) fn split_by_pattern(pattern: &str, text: &str) -> (pieces: Option<Vec<String>>)
    ensures
        pieces.deep_view() == pattern_split(pattern@, text@),
{
    match Regex::new(pattern) {
        Ok(regex) => Some(regex.split(text).map(|piece| piece.to_string()).collect()),
        Err(_) => None,
    }
}

/// Whether `piece` is as long as a room number written in full.
pub open spec fn is_room_token(piece: Seq<char>) -> bool {
    piece.len() == ROOM_LEN
}

/// The pieces that are as long as a room number, in their order.
pub open spec fn room_tokens(pieces: Seq<Seq<char>>) -> Seq<Seq<char>> {
    pieces.filter(|piece: Seq<char>| is_room_token(piece))
}

/// Keeps the pieces that are exactly five characters long and drops the rest.
pub fn keep_room_tokens(pieces: Vec<String>) -> (tokens: Vec<String>)
    ensures
        tokens.deep_view() == room_tokens(pieces.deep_view()),
        forall|i: int| 0 <= i < tokens.len() ==> (#[trigger] tokens[i])@.len() == ROOM_LEN,
{
    let mut tokens: Vec<String> = Vec::new();
    let ghost keep = |piece: Seq<char>| is_room_token(piece);
    let mut i: usize = 0;
    assert(pieces.deep_view().take(0) =~= Seq::<Seq<char>>::empty());
    assert(tokens.deep_view() =~= Seq::<Seq<char>>::empty());
    while i < pieces.len()
        invariant
            i <= pieces.len(),
            keep == |piece: Seq<char>| is_room_token(piece),
            tokens.deep_view() == pieces.deep_view().take(i as int).filter(keep),
            forall|k: int| 0 <= k < tokens.len() ==> (#[trigger] tokens[k])@.len() == ROOM_LEN,
        decreases pieces.len() - i,
    {
        let ghost before = tokens.deep_view();
        let ghost seen = pieces.deep_view().take(i as int);
        assert(pieces.deep_view().take(i + 1) =~= seen.push(pieces[i as int]@));
        proof {
            seen.lemma_filter_push(pieces[i as int]@, keep);
        }
        if pieces[i].as_str().unicode_len() == ROOM_LEN {
            tokens.push(pieces[i].clone());
            assert(tokens.deep_view() =~= before.push(pieces[i as int]@));
        }
        i += 1;
    }
    assert(pieces.deep_view().take(i as int) =~= pieces.deep_view());
    tokens
}

} // verus!
