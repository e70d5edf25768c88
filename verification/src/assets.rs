//! Content types of the dashboard's static assets.

use vstd::prelude::*;

verus! {

/// The media type that `mime_guess` assigns to a path, by its extension.
pub uninterp spec fn guessed_mime(path: Seq<char>) -> Seq<char>;

/// Calls `mime_guess::from_path(path).first_or_octet_stream()` and returns
/// the media type as text. Trusted, from the crate's source: the guess is a
/// lookup of the path's extension in a table compiled into the crate, so it
/// depends on the path alone; a path with no `.` has no extension, and then
/// the answer is `application/octet-stream`. Which type each extension
/// maps to is left unsaid.
#[verifier::external_body]
fn mime_from_path(path: &str) -> (m: String)
    ensures
        m@ == guessed_mime(path@),
        !path@.contains('.') ==> m@ == "application/octet-stream"@,
{
    let mime = mime_guess::from_path(path).first_or_octet_stream();
    let text: &str = mime.as_ref();
    text.to_owned()
}

/// The Content-Type of a served asset: the type guessed from the asset's
/// path, or `text/html` when the request fell back to the index page.
pub fn asset_content_type(path: &str, index_fallback: bool) -> (r: String)
    ensures
        index_fallback ==> r@ == "text/html"@,
        !index_fallback ==> r@ == guessed_mime(path@),
{
    if index_fallback {
        "text/html".to_owned()
    } else {
        mime_from_path(path)
    }
}

} // verus!
