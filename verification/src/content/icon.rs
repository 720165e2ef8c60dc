//! Inline vector images.

use vstd::prelude::*;

verus! {

/// A vector image, held as the text of its file.
#[derive(Clone, Copy, Debug, PartialEq, Eq)]
pub struct Icon(pub &'static str);

/// Whether `c` is white space: what `char::is_whitespace` returns for it.
pub uninterp spec fn whitespace(c: char) -> bool;

/// True if `trimmed` is `text` without the white space at its end: it is
/// the beginning of `text`, it does not end in white space, and all that
/// follows it in `text` is white space.
pub open spec fn is_trimmed_end(text: Seq<char>, trimmed: Seq<char>) -> bool {
    &&& trimmed.is_prefix_of(text)
    &&& trimmed.len() > 0 ==> !whitespace(trimmed.last())
    &&& forall|i: int| trimmed.len() <= i < text.len() ==> whitespace(#[trigger] text[i])
}

/// Calls `str::trim_end`, which returns the slice of `text` that is left
/// when trailing white space is removed. White space is what
/// `char::is_whitespace` holds to be so.
#[verifier::external_body]
fn trim_end(text: &str) -> (r: &str)
    ensures
        r@.is_prefix_of(text@),
        r@.len() > 0 ==> !whitespace(r@.last()),
        forall|i: int| r@.len() <= i < text@.len() ==> whitespace(#[trigger] text@[i]),
{
    text.trim_end()
}

impl Icon {
    /// The markup of the image: the text of its file without the white
    /// space, such as a line break, at its end.
    pub fn svg(&self) -> (r: &str)
        ensures
            is_trimmed_end(self.0@, r@),
    {
        trim_end(self.0)
    }
}

/// A text has one trimmed form only.
pub proof fn lemma_trimmed_end_is_unique(text: Seq<char>, a: Seq<char>, b: Seq<char>)
    requires
        is_trimmed_end(text, a),
        is_trimmed_end(text, b),
    ensures
        a == b,
{
    if a.len() < b.len() {
        assert(whitespace(text[b.len() - 1]));
        assert(b.last() == text[b.len() - 1]);
    } else if b.len() < a.len() {
        assert(whitespace(text[a.len() - 1]));
        assert(a.last() == text[a.len() - 1]);
    }
    assert(a =~= b);
}

} // verus!
