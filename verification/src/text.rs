//! Text handling for identity values: byte-sequence decoding and the
//! rendering of a dependency edge as `"<downstream> -> <upstream>"`.

use vstd::prelude::*;

verus! {

/// The text that a byte sequence decodes to, when it is well-formed UTF-8.
/// The outcome is a function of the bytes alone.
pub uninterp spec fn utf8_decode(bytes: Seq<u8>) -> Option<Seq<char>>;

/// Relies on `String::from_utf8` (std): it returns `Ok` exactly when the bytes
/// are valid UTF-8, and the resulting text depends on the bytes alone.
#[verifier::external_body]
pub fn string_from_utf8(bytes: Vec<u8>) -> (r: Option<String>)
    ensures
        r.deep_view() == utf8_decode(bytes@),
{
    String::from_utf8(bytes).ok()
}

/// Relies on `String::push_str` (std): it appends the given slice to the
/// string.
#[verifier::external_body]
pub(crate) fn push_str(s: &mut String, t: &str)
    ensures
        final(s)@ == old(s)@ + t@,
{
    s.push_str(t)
}

/// How one side of an edge is rendered: the resolved identity itself, or the
/// placeholder `"?"` when the side is unresolved.
pub open spec fn identity_text(side: Option<Seq<char>>) -> Seq<char> {
    match side {
        Some(t) => t,
        None => "?"@,
    }
}

/// The full rendering of an edge fact: the downstream identity, an arrow, and
/// the upstream identity, with `"?"` standing in for either unresolved side.
pub open spec fn edge_text(downstream: Option<Seq<char>>, upstream: Option<Seq<char>>) -> Seq<char> {
    identity_text(downstream) + " -> "@ + identity_text(upstream)
}

/// An unresolved side of an edge is rendered as exactly the one-character
/// placeholder `'?'`, and a resolved side as exactly its own text.
pub proof fn lemma_placeholder_substitution(side: Option<Seq<char>>)
    ensures
        side is None ==> identity_text(side) == seq!['?'],
        side matches Some(t) ==> identity_text(side) == t,
{
    reveal_strlit("?");
    if side is None {
        assert(identity_text(side) =~= seq!['?']);
    }
}

fn push_side(out: &mut String, side: &Option<String>)
    ensures
        final(out)@ == old(out)@ + identity_text(side.deep_view()),
{
    match side {
        Some(t) => push_str(out, t.as_str()),
        None => push_str(out, "?"),
    }
}

/// Renders the edge fact for the given sides, unresolved sides shown as `"?"`.
pub fn render_edge(downstream: &Option<String>, upstream: &Option<String>) -> (r: String)
    ensures
        r@ == edge_text(downstream.deep_view(), upstream.deep_view()),
{
    let mut out = String::new();
    push_side(&mut out, downstream);
    push_str(&mut out, " -> ");
    push_side(&mut out, upstream);
    proof {
        assert(out@ =~= edge_text(downstream.deep_view(), upstream.deep_view()));
    }
    out
}

} // verus!
