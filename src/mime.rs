use vstd::prelude::*;

use crate::text::text_eq;

verus! {

/// The media type announced for a file extension: `html` is served as
/// `text/html`, `ico` and `png` as `image/png`, and anything else as
/// `application/octet-stream`.
pub open spec fn mime_of(extension: Seq<char>) -> Seq<char> {
    if extension == "html"@ {
        "text/html"@
    } else if extension == "ico"@ || extension == "png"@ {
        "image/png"@
    } else {
        "application/octet-stream"@
    }
}

/// Looks up the media type for a file extension (compared exactly, without
/// case folding).
pub fn parse_mime(extension: &str) -> (r: &'static str)
    ensures
        r@ == mime_of(extension@),
{
    if text_eq(extension, "html") {
        "text/html"
    } else if text_eq(extension, "ico") || text_eq(extension, "png") {
        "image/png"
    } else {
        "application/octet-stream"
    }
}

} // verus!
