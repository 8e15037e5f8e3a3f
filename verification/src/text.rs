//! Text helpers: where one text occurs inside another, and how captured bytes
//! become text.

use vstd::prelude::*;
use vstd::utf8::*;

verus! {

/// `needle` occurs in `hay` as a contiguous run of characters.
pub open spec fn occurs_in(needle: Seq<char>, hay: Seq<char>) -> bool {
    exists|at: int|
        0 <= at && at + needle.len() <= hay.len() && #[trigger] hay.subrange(
            at,
            at + needle.len(),
        ) == needle
}

/// A text occurs in whatever is built by writing something before and
/// something after it.
pub proof fn lemma_occurs_between(before: Seq<char>, needle: Seq<char>, after: Seq<char>)
    ensures
        occurs_in(needle, before + needle + after),
{
    let hay = before + needle + after;
    let at = before.len() as int;
    assert(hay.subrange(at, at + needle.len()) =~= needle);
}

/// Occurrence is transitive: what occurs in a part occurs in the whole.
pub proof fn lemma_occurs_in_trans(inner: Seq<char>, middle: Seq<char>, outer: Seq<char>)
    requires
        occurs_in(inner, middle),
        occurs_in(middle, outer),
    ensures
        occurs_in(inner, outer),
{
    let i = choose|at: int|
        0 <= at && at + inner.len() <= middle.len() && #[trigger] middle.subrange(
            at,
            at + inner.len(),
        ) == inner;
    let j = choose|at: int|
        0 <= at && at + middle.len() <= outer.len() && #[trigger] outer.subrange(
            at,
            at + middle.len(),
        ) == middle;
    assert(outer.subrange(i + j, i + j + inner.len()) =~= outer.subrange(
        j,
        j + middle.len(),
    ).subrange(i, i + inner.len()));
}

/// The text that lossy UTF-8 decoding makes of a byte sequence: well-formed
/// parts are decoded, and each ill-formed part is replaced by U+FFFD.
pub uninterp spec fn lossy_text(bytes: Seq<u8>) -> Seq<char>;

/// Decodes captured bytes as text without ever rejecting them.
///
/// Trusted: calls `String::from_utf8_lossy` of the standard library. The
/// contract names the decoded text and claims one fact about it, as the
/// standard library documents it: bytes that are valid UTF-8 decode to
/// exactly the text they encode.
#[verifier::external_body]
pub(crate) fn decode_lossy(bytes: &Vec<u8>) -> (text: String)
    ensures
        text@ == lossy_text(bytes@),
        valid_utf8(bytes@) ==> text@ == decode_utf8(bytes@),
{
    String::from_utf8_lossy(bytes).into_owned()
}

} // verus!
