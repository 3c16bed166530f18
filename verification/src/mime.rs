//! Content-type classification for served files.
//!
//! The mapping from a file name's extension to a MIME type is a large
//! fixed table, so it is left abstract here: `mime_of` names the type
//! the table assigns to a path, and the rest of the crate speaks of
//! responses in terms of that name.

use vstd::prelude::*;

verus! {

/// The content type assigned to a file path by the extension-based
/// MIME table (for example `"text/html"` for a `.html` path), with
/// `"application/octet-stream"` where the extension is unrecognized.
/// It depends on the path alone.
pub uninterp spec fn mime_of(path: Seq<char>) -> Seq<char>;

/// Relies on `mime_guess::from_path` and
/// `MimeGuess::first_or_octet_stream`: the guess is computed from the
/// path's file-name extension alone, falling back to
/// `application/octet-stream`, so it is a pure function of the path.
#[verifier::external_body]
pub(crate) fn guess_mime(path: &str) -> (r: String)
    ensures
        r@ == mime_of(path@),
{
    mime_guess::from_path(path).first_or_octet_stream().as_ref().to_owned()
}

} // verus!
