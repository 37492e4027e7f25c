use vstd::prelude::*;
use vstd::string::*;
use vstd::utf8::*;

use crate::file::{
    bytes_view, extension_of, file_view, path_extension, resolve_file, resolved, FileView, ReadFile,
};
use crate::mime::mime_of;
use crate::request::Request;
use crate::response::{
    decimal, file_headers, prepare_response_buffer, response_bytes, status_line, Response,
};

verus! {

/// The directory under which requested paths are looked up.
pub const STATIC_ROOT: &'static str = "static";

/// The page served with a 404 status when the requested file is missing.
pub const FALLBACK_PATH: &'static str = "static/404.html";

/// The filesystem path for a requested path: the static root followed by
/// the path exactly as requested.
pub open spec fn static_path(path: Seq<char>) -> Seq<char> {
    "static"@ + path
}

/// Code, status text and file of the response chosen from the requested
/// file (`primary`) and the 404 page (`fallback`).
pub open spec fn chosen(primary: Option<FileView>, fallback: Option<FileView>) -> (
    nat,
    Seq<char>,
    Option<FileView>,
) {
    match primary {
        Some(f) => (200, "OK"@, Some(f)),
        None => (404, "NOT FOUND"@, fallback),
    }
}

/// The bytes sent for a request of `path`, given what reading the file it
/// names gave (`primary`) and what reading the 404 page gave (`fallback`).
pub open spec fn served(path: Seq<char>, primary: Option<Seq<u8>>, fallback: Option<Seq<u8>>) -> Seq<
    u8,
> {
    let c = chosen(resolved(static_path(path), primary), resolved("static/404.html"@, fallback));
    response_bytes(c.0, c.1, c.2)
}

/// The filesystem path that a request names: the static root joined to the
/// requested path, with no normalisation.
pub fn file_path(request: &Request) -> (r: String)
    ensures
        r@ == static_path(request.path@),
{
    STATIC_ROOT.to_owned().concat(request.path.as_str())
}

/// Chooses the response: 200 `OK` with the requested file when it was
/// found, else 404 `NOT FOUND` with the 404 page when that was found. The
/// 404 page is looked at only when the requested file is missing.
pub fn response_for(primary: Option<ReadFile>, fallback: Option<ReadFile>) -> (r: Response)
    ensures
        (r.code as nat, r.status@, file_view(r.file)) == chosen(
            file_view(primary),
            file_view(fallback),
        ),
{
    match primary {
        Some(f) => Response { file: Some(f), code: 200, status: "OK".to_owned() },
        None => Response { file: fallback, code: 404, status: "NOT FOUND".to_owned() },
    }
}

/// Whether the 404 page has to be read: the requested file, given what
/// reading it gave, does not resolve.
pub fn fallback_needed(request: &Request, primary: &Option<Vec<u8>>) -> (r: bool)
    ensures
        r == resolved(static_path(request.path@), bytes_view(*primary)) is None,
{
    let path = file_path(request);
    match primary {
        Some(_) => path_extension(path.as_str()).is_none(),
        None => true,
    }
}

/// Answers a request, given what reading the requested file gave
/// (`primary`) and what reading the 404 page gave (`fallback`, which only
/// counts when the requested file does not resolve): the bytes to send.
pub fn respond(request: &Request, primary: Option<Vec<u8>>, fallback: Option<Vec<u8>>) -> (r: Vec<
    u8,
>)
    ensures
        r@ == served(request.path@, bytes_view(primary), bytes_view(fallback)),
{
    let path = file_path(request);
    let found = resolve_file(path.as_str(), primary);
    let page = match found {
        Some(_) => None,
        None => resolve_file(FALLBACK_PATH, fallback),
    };
    prepare_response_buffer(response_for(found, page))
}

/// A file that exists under the static root and has an extension is
/// served with status 200, its media type, its byte count, and its bytes.
pub proof fn lemma_existing_file_served(
    path: Seq<char>,
    contents: Seq<u8>,
    fallback: Option<Seq<u8>>,
)
    requires
        extension_of(static_path(path)) is Some,
    ensures
        served(path, Some(contents), fallback) == status_line(200, "OK"@) + encode_utf8(
            "Content-Type: "@,
        ) + encode_utf8(mime_of(extension_of(static_path(path))->0)) + encode_utf8("\n"@)
            + encode_utf8("Content-Length: "@) + decimal(contents.len()) + encode_utf8("\n\n"@)
            + contents,
{
}

/// The body sent for a file found under the static root is exactly the
/// file's bytes: the response ends with them.
pub proof fn lemma_body_unchanged(path: Seq<char>, contents: Seq<u8>, fallback: Option<Seq<u8>>)
    requires
        extension_of(static_path(path)) is Some,
    ensures
        ({
            let s = served(path, Some(contents), fallback);
            s.len() >= contents.len() && s.subrange(s.len() - contents.len(), s.len() as int)
                == contents
        }),
{
    let f = FileView { extension: extension_of(static_path(path))->0, contents };
    let head = status_line(200, "OK"@) + file_headers(f);
    let s = served(path, Some(contents), fallback);
    assert(s == head + contents);
    assert(s.subrange(head.len() as int, s.len() as int) =~= contents);
}

/// A path that has no extension is answered as a missing file would be,
/// whatever the file holds.
pub proof fn lemma_extensionless_is_missing(
    path: Seq<char>,
    contents: Seq<u8>,
    fallback: Option<Seq<u8>>,
)
    requires
        extension_of(static_path(path)) is None,
    ensures
        served(path, Some(contents), fallback) == served(path, None, fallback),
{
}

/// The 404 page's path has the extension `html`.
proof fn lemma_fallback_extension()
    ensures
        extension_of("static/404.html"@) == Some("html"@),
{
    reveal_strlit("static/404.html");
    reveal_strlit("404.html");
    reveal_strlit("html");
    reveal_strlit("..");
    reveal_with_fuel(crate::text::last_index, 16);
    let p = "static/404.html"@;
    assert(crate::text::last_index(p, '/') == Some(6int));
    assert(p.subrange(7, 15) =~= "404.html"@);
    let name = "404.html"@;
    assert(crate::text::last_index(name, '.') == Some(3int));
    assert(name.subrange(4, 8) =~= "html"@);
    assert(name != ".."@) by {
        assert(name.len() != (".."@).len());
    }
}

/// A missing file is answered with status 404: with the 404 page as
/// `text/html`, its byte count and its bytes when that page exists, and
/// with the status line alone when it does not.
pub proof fn lemma_missing_file(path: Seq<char>, fallback: Option<Seq<u8>>)
    ensures
        served(path, None, fallback) == match fallback {
            Some(page) => status_line(404, "NOT FOUND"@) + encode_utf8("Content-Type: "@)
                + encode_utf8("text/html"@) + encode_utf8("\n"@) + encode_utf8(
                "Content-Length: "@,
            ) + decimal(page.len()) + encode_utf8("\n\n"@) + page,
            None => status_line(404, "NOT FOUND"@),
        },
{
    lemma_fallback_extension();
}

} // verus!
