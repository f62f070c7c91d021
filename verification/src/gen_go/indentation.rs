//! Indenting and dedenting of text, as the `textwrap` crate does it.

use vstd::prelude::*;
use vstd::utf8::encode_utf8;

verus! {

/// What `textwrap::dedent` makes of a text: the text without the whitespace
/// that all its lines with content begin with.
pub uninterp spec fn dedented(text: Seq<char>) -> Seq<char>;

/// What `textwrap::indent` makes of a text and a prefix: the text with the
/// prefix before each line, without its trailing whitespace before a blank line.
pub uninterp spec fn indented(text: Seq<char>, prefix: Seq<char>) -> Seq<char>;

/// Whether a text of `len` bytes is short enough to be indented. `textwrap`
/// reserves twice the text's length before it starts, and no more than half
/// the address space can be reserved.
pub open spec fn fits_indent(len: nat) -> bool {
    len <= usize::MAX / 4
}

/// The number of bytes of a string.
pub open spec fn utf8_len(text: Seq<char>) -> nat {
    encode_utf8(text).len()
}

/// Calls `textwrap::dedent`. The contract claims only that the result is
/// determined by the characters of `text`.
#[verifier::external_body]
pub(crate) fn dedent(text: &str) -> (r: String)
    ensures
        r@ == dedented(text@),
{
    textwrap::dedent(text)
}

/// Calls `textwrap::indent`. The contract claims only that the result is
/// determined by the characters of `text` and `prefix`. A text of more than a
/// quarter of the address space is left out: reserving twice its length fails.
#[verifier::external_body]
pub(crate) fn indent(text: &str, prefix: &str) -> (r: String)
    requires
        fits_indent(utf8_len(text@)),
    ensures
        r@ == indented(text@, prefix@),
{
    textwrap::indent(text, prefix)
}

/// Whether `text` is short enough to be indented.
pub fn can_indent(text: &str) -> (r: bool)
    ensures
        r == fits_indent(utf8_len(text@)),
{
    text.as_bytes().len() <= usize::MAX / 4
}

} // verus!
