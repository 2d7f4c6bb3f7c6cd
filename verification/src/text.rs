//! Text in the form that debug formatting gives it.

use vstd::prelude::*;

verus! {

/// The characters that `{:?}` writes for a string that holds `text`: the
/// text between double quotes, with quotes, backslashes, control characters
/// and the like written as escape sequences. Which characters are escaped,
/// and how, is std's to say; nothing here spells it out.
pub uninterp spec fn debug_quoted(text: Seq<char>) -> Seq<char>;

/// Formats `text` with `{:?}`, which runs std's `Debug` impl for `str`.
/// Trusted: what comes back is determined by the characters of `text`
/// alone, so that it can be called `debug_quoted(text@)`.
#[verifier::external_body]
pub(crate) fn quote_debug(text: &str) -> (quoted: String)
    ensures
        quoted@ == debug_quoted(text@),
{
    format!("{:?}", text)
}

} // verus!
