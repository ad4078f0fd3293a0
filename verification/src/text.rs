//! Text helpers for the page state machine: buffer editing, case folding and
//! substring search. The editing and searching primitives delegate to `std`
//! behind trusted wrappers; everything built on them is verified.

use vstd::prelude::*;

verus! {

/// The Unicode lowercasing of a character sequence, as `str::to_lowercase`
/// computes it. It depends on the characters alone.
pub uninterp spec fn lower_of(s: Seq<char>) -> Seq<char>;

/// Whether `needle` occurs contiguously inside `hay`.
pub open spec fn spec_contains(hay: Seq<char>, needle: Seq<char>) -> bool {
    exists|i: int|
        0 <= i <= hay.len() - needle.len() && #[trigger] hay.subrange(i, i + needle.len())
            == needle
}

/// Whether a record name matches a search term: an empty term matches
/// everything, otherwise the lowercased term must occur in the lowercased
/// name.
pub open spec fn matches_search(name: Seq<char>, lowered_term: Seq<char>) -> bool {
    lowered_term.len() == 0 || spec_contains(lower_of(name), lowered_term)
}

/// The names that a search with this (already lowercased) term keeps, in
/// their original relative order.
pub open spec fn filtered_names(names: Seq<Seq<char>>, lowered_term: Seq<char>) -> Seq<Seq<char>>
    decreases names.len(),
{
    if names.len() == 0 {
        Seq::empty()
    } else {
        let rest = filtered_names(names.drop_first(), lowered_term);
        if matches_search(names[0], lowered_term) {
            seq![names[0]] + rest
        } else {
            rest
        }
    }
}

/// Unrolling [`filtered_names`] over the head of a suffix: filtering the
/// suffix that starts at `i` keeps the element at `i` (when it matches) in
/// front of the filtered remainder.
pub proof fn lemma_filtered_names_step(names: Seq<Seq<char>>, lowered_term: Seq<char>, i: int)
    requires
        0 <= i < names.len(),
    ensures
        filtered_names(names.subrange(i, names.len() as int), lowered_term) == (if matches_search(
            names[i],
            lowered_term,
        ) {
            seq![names[i]]
        } else {
            Seq::<Seq<char>>::empty()
        }) + filtered_names(names.subrange(i + 1, names.len() as int), lowered_term),
{
    let suffix = names.subrange(i, names.len() as int);
    assert(suffix.len() > 0);
    assert(suffix[0] == names[i]);
    assert(suffix.drop_first() =~= names.subrange(i + 1, names.len() as int));
    if !matches_search(names[i], lowered_term) {
        assert(filtered_names(suffix, lowered_term) =~= Seq::<Seq<char>>::empty() + filtered_names(
            suffix.drop_first(),
            lowered_term,
        ));
    }
}

/// Relies on `str::to_lowercase`: the Unicode lowercase mapping of the
/// string, a function of its characters alone. An empty string stays empty.
#[verifier::external_body]
pub fn to_lowercase(s: &str) -> (r: String)
    ensures
        r@ == lower_of(s@),
        s@.len() == 0 ==> r@.len() == 0,
{
    s.to_lowercase()
}

/// Relies on `str::contains`: true exactly when `needle` occurs as a
/// substring of `hay` (UTF-8 is self-synchronizing, so byte-level matches
/// coincide with character-level matches).
#[verifier::external_body]
pub fn contains_substr(hay: &str, needle: &str) -> (r: bool)
    ensures
        r == spec_contains(hay@, needle@),
{
    hay.contains(needle)
}

/// Relies on `String::push`: appends exactly one character.
#[verifier::external_body]
pub fn string_push(s: &mut String, c: char)
    ensures
        final(s)@ == old(s)@.push(c),
{
    s.push(c);
}

/// Relies on `String::pop`: removes and returns the last character, if any.
#[verifier::external_body]
pub fn string_pop(s: &mut String) -> (r: Option<char>)
    ensures
        old(s)@.len() == 0 ==> r is None && final(s)@ == old(s)@,
        old(s)@.len() > 0 ==> r == Some(old(s)@.last()) && final(s)@ == old(s)@.drop_last(),
{
    s.pop()
}

/// Relies on `String::from_utf8`: decodes exactly the valid UTF-8 byte
/// sequences, to the character sequence they encode.
#[verifier::external_body]
pub fn string_from_utf8(v: Vec<u8>) -> (r: Option<String>)
    ensures
        match r {
            Some(s) => vstd::utf8::valid_utf8(v@) && s@ == vstd::utf8::decode_utf8(v@),
            None => !vstd::utf8::valid_utf8(v@),
        },
{
    String::from_utf8(v).ok()
}

/// Appending one character to an optional text buffer.
pub open spec fn buf_push(o: Option<Seq<char>>, c: char) -> Option<Seq<char>> {
    Some(opt_or_empty(o).push(c))
}

/// Removing the last character from an optional text buffer.
pub open spec fn buf_pop(o: Option<Seq<char>>) -> Option<Seq<char>> {
    let cur = opt_or_empty(o);
    if cur.len() == 0 {
        Some(cur)
    } else {
        Some(cur.drop_last())
    }
}

/// An optional character sequence, read as empty when absent.
pub open spec fn opt_or_empty(o: Option<Seq<char>>) -> Seq<char> {
    match o {
        Some(s) => s,
        None => Seq::empty(),
    }
}

/// The view of an optional string.
pub open spec fn opt_view(o: Option<String>) -> Option<Seq<char>> {
    match o {
        Some(s) => Some(s@),
        None => None,
    }
}

/// Take an optional buffer, append one character, and put it back: the
/// executable counterpart of [`buf_push`].
pub fn push_to_buf(o: &mut Option<String>, c: char)
    ensures
        opt_view(*final(o)) == buf_push(opt_view(*old(o)), c),
{
    let mut taken: Option<String> = None;
    core::mem::swap(o, &mut taken);
    let mut cur = match taken {
        Some(s) => s,
        None => String::new(),
    };
    string_push(&mut cur, c);
    *o = Some(cur);
}

/// Take an optional buffer, drop its last character, and put it back: the
/// executable counterpart of [`buf_pop`].
pub fn pop_from_buf(o: &mut Option<String>)
    ensures
        opt_view(*final(o)) == buf_pop(opt_view(*old(o))),
{
    let mut taken: Option<String> = None;
    core::mem::swap(o, &mut taken);
    let mut cur = match taken {
        Some(s) => s,
        None => String::new(),
    };
    let _ = string_pop(&mut cur);
    *o = Some(cur);
}

} // verus!
