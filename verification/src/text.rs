//! Small operations on text and bytes that the rest of the crate shares.

use vstd::prelude::*;
use vstd::string::StringExecFns;
use vstd::string::StringSliceAdditionalSpecFns;

verus! {

/// A copy of an optional text.
pub fn copy_optional_text(text: &Option<String>) -> (copy: Option<String>)
    ensures
        copy.deep_view() == text.deep_view(),
{
    match text {
        Some(s) => Some(s.clone()),
        None => None,
    }
}

/// Whether two byte strings hold the same bytes.
pub fn same_bytes(left: &[u8], right: &[u8]) -> (same: bool)
    ensures
        same == (left@ == right@),
{
    if left.len() != right.len() {
        return false;
    }
    let mut i: usize = 0;
    while i < left.len()
        invariant
            i <= left.len(),
            left.len() == right.len(),
            forall|k: int| 0 <= k < i ==> left@[k] == right@[k],
        decreases left.len() - i,
    {
        if left[i] != right[i] {
            return false;
        }
        i += 1;
    }
    assert(left@ =~= right@);
    true
}

/// Two texts are equal exactly when their UTF-8 encodings are.
pub proof fn lemma_text_equal_iff_bytes_equal(left: &str, right: &str)
    ensures
        (left@ == right@) <==> (left.spec_bytes() == right.spec_bytes()),
{
    vstd::utf8::encode_utf8_decode_utf8(left@);
    vstd::utf8::encode_utf8_decode_utf8(right@);
}

/// Whether two texts hold the same characters.
pub fn same_text(left: &str, right: &str) -> (same: bool)
    ensures
        same == (left@ == right@),
{
    proof {
        lemma_text_equal_iff_bytes_equal(left, right);
    }
    same_bytes(left.as_bytes(), right.as_bytes())
}

/// `first`, a line break, then `second`.
pub open spec fn spec_join_lines(first: Seq<char>, second: Seq<char>) -> Seq<char> {
    first + seq!['\n'] + second
}

/// `first`, a line break, then `second`.
pub fn join_lines(first: String, second: &str) -> (joined: String)
    ensures
        joined@ == spec_join_lines(first@, second@),
{
    proof {
        reveal_strlit("\n");
        assert("\n"@ =~= seq!['\n']);
    }
    let mut joined = first;
    joined.append("\n");
    joined.append(second);
    joined
}


/// Whether `marker` stands in `text` at position `at`.
pub open spec fn occurs_at(text: Seq<u8>, marker: Seq<u8>, at: int) -> bool {
    0 <= at && at + marker.len() <= text.len() && text.subrange(at, at + marker.len()) == marker
}

/// The first position at or after `from` at which `marker` stands in
/// `text`.
pub open spec fn find_from(text: Seq<u8>, marker: Seq<u8>, from: int) -> Option<int>
    decreases text.len() + 1 - from,
{
    if from < 0 || from + marker.len() > text.len() {
        None
    } else if occurs_at(text, marker, from) {
        Some(from)
    } else {
        find_from(text, marker, from + 1)
    }
}

/// What the search finds is an occurrence, not before `from`, and the
/// first such.
pub proof fn lemma_find_from(text: Seq<u8>, marker: Seq<u8>, from: int)
    requires
        0 <= from,
    ensures
        match find_from(text, marker, from) {
            Some(at) => from <= at && occurs_at(text, marker, at) && forall|k: int|
                from <= k < at ==> !occurs_at(text, marker, k),
            None => forall|k: int| from <= k ==> !occurs_at(text, marker, k),
        },
    decreases text.len() + 1 - from,
{
    if from + marker.len() <= text.len() && !occurs_at(text, marker, from) {
        lemma_find_from(text, marker, from + 1);
    }
}

/// The pieces of `text` from `start` on that lie between the occurrences
/// of `marker`, found from left to right without overlap. There is one
/// piece more than there are occurrences; a piece may be empty.
pub open spec fn split_from(text: Seq<u8>, marker: Seq<u8>, start: int) -> Seq<Seq<u8>>
    decreases text.len() - start,
    when marker.len() > 0 && 0 <= start <= text.len()
    via split_from_decreases
{
    match find_from(text, marker, start) {
        Some(at) => seq![text.subrange(start, at)] + split_from(text, marker, at + marker.len()),
        None => seq![text.subrange(start, text.len() as int)],
    }
}

#[via_fn]
proof fn split_from_decreases(text: Seq<u8>, marker: Seq<u8>, start: int) {
    lemma_find_from(text, marker, start);
}

/// The pieces of `text` that lie between the occurrences of `marker`; an
/// empty marker occurs nowhere, and leaves the text whole.
pub open spec fn spec_split_on(text: Seq<u8>, marker: Seq<u8>) -> Seq<Seq<u8>> {
    if marker.len() == 0 {
        seq![text]
    } else {
        split_from(text, marker, 0)
    }
}

/// Whether `marker` stands in `text` at position `at`.
fn occurs_at_position(text: &[u8], marker: &[u8], at: usize) -> (found: bool)
    requires
        at + marker.len() <= text.len(),
    ensures
        found == occurs_at(text@, marker@, at as int),
{
    let mut k: usize = 0;
    while k < marker.len()
        invariant
            k <= marker.len(),
            at + marker.len() <= text.len(),
            forall|j: int| 0 <= j < k ==> text@[at + j] == marker@[j],
        decreases marker.len() - k,
    {
        if text[at + k] != marker[k] {
            assert(text@.subrange(at as int, at + marker.len())[k as int] != marker@[k as int]);
            return false;
        }
        k += 1;
    }
    assert(text@.subrange(at as int, at + marker.len()) =~= marker@);
    true
}

/// A copy of the bytes of `text` from `from` up to `to`.
fn copy_range(text: &[u8], from: usize, to: usize) -> (piece: Vec<u8>)
    requires
        from <= to <= text.len(),
    ensures
        piece@ == text@.subrange(from as int, to as int),
{
    let mut piece: Vec<u8> = Vec::new();
    let mut k: usize = from;
    while k < to
        invariant
            from <= k <= to <= text.len(),
            piece@ == text@.subrange(from as int, k as int),
        decreases to - k,
    {
        piece.push(text[k]);
        assert(piece@ =~= text@.subrange(from as int, k + 1));
        k += 1;
    }
    piece
}

/// Cuts `text` at every occurrence of `marker`, found from left to right
/// without overlap, and returns the pieces between the occurrences in
/// order.
pub fn split_on(text: &[u8], marker: &[u8]) -> (pieces: Vec<Vec<u8>>)
    ensures
        pieces.deep_view() == spec_split_on(text@, marker@),
        pieces.len() > 0,
{
    let mut pieces: Vec<Vec<u8>> = Vec::new();
    let mut start: usize = 0;
    let mut at: usize = 0;
    assert(pieces.deep_view() =~= Seq::<Seq<u8>>::empty());
    if marker.len() == 0 {
        let whole = copy_range(text, 0, text.len());
        assert(whole.deep_view() =~= text@);
        pieces.push(whole);
        assert(pieces.deep_view() =~= seq![text@]);
        return pieces;
    }
    while marker.len() <= text.len() && at <= text.len() - marker.len()
        invariant
            marker.len() > 0,
            start <= at <= text.len(),
            find_from(text@, marker@, start as int) == find_from(text@, marker@, at as int),
            spec_split_on(text@, marker@) == pieces.deep_view() + split_from(
                text@,
                marker@,
                start as int,
            ),
        decreases text.len() - at,
    {
        if occurs_at_position(text, marker, at) {
            let piece = copy_range(text, start, at);
            let ghost before = pieces.deep_view();
            assert(piece.deep_view() =~= piece@);
            pieces.push(piece);
            assert(pieces.deep_view() =~= before.push(text@.subrange(start as int, at as int)));
            assert(before.push(text@.subrange(start as int, at as int)) + split_from(
                text@,
                marker@,
                at + marker.len(),
            ) =~= before + (seq![text@.subrange(start as int, at as int)] + split_from(
                text@,
                marker@,
                at + marker.len(),
            )));
            start = at + marker.len();
            at = start;
        } else {
            at += 1;
        }
    }
    let piece = copy_range(text, start, text.len());
    let ghost before = pieces.deep_view();
    assert(piece.deep_view() =~= piece@);
    pieces.push(piece);
    assert(pieces.deep_view() =~= before.push(text@.subrange(start as int, text.len() as int)));
    pieces
}


/// Puts the bytes of `more` behind those of `buffer`.
pub fn append_bytes(buffer: &mut Vec<u8>, more: &[u8])
    ensures
        final(buffer)@ == old(buffer)@ + more@,
{
    let mut k: usize = 0;
    while k < more.len()
        invariant
            k <= more.len(),
            buffer@ == old(buffer)@ + more@.subrange(0, k as int),
        decreases more.len() - k,
    {
        buffer.push(more[k]);
        assert(buffer@ =~= old(buffer)@ + more@.subrange(0, k + 1));
        k += 1;
    }
    assert(more@.subrange(0, more.len() as int) =~= more@);
}

/// Calls `std::str::from_utf8` and says whether it accepted the bytes: it
/// accepts exactly the byte strings that are well-formed UTF-8.
#[verifier::external_body]
pub(crate) fn is_utf8(bytes: &[u8]) -> (valid: bool)
    ensures
        valid == vstd::utf8::valid_utf8(bytes@),
{
    std::str::from_utf8(bytes).is_ok()
}

} // verus!
