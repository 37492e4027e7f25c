use vstd::prelude::*;
use vstd::string::*;
use vstd::utf8::*;

use crate::file::{file_view, FileView, ReadFile};
use crate::mime::{mime_of, parse_mime};

verus! {

/// The ASCII decimal digits of `n`, most significant first, with no
/// leading zeros.
pub open spec fn decimal(n: nat) -> Seq<u8>
    decreases n,
{
    if n < 10 {
        seq![(48 + n) as u8]
    } else {
        decimal(n / 10) + seq![(48 + n % 10) as u8]
    }
}

/// The status line: `HTTP/1.1 <code> <status>` and a bare line feed.
pub open spec fn status_line(code: nat, status: Seq<char>) -> Seq<u8> {
    encode_utf8("HTTP/1.1 "@) + decimal(code) + encode_utf8(" "@) + encode_utf8(status)
        + encode_utf8("\n"@)
}

/// The headers that come with a file, through the blank line that ends them.
pub open spec fn file_headers(f: FileView) -> Seq<u8> {
    encode_utf8("Content-Type: "@) + encode_utf8(mime_of(f.extension)) + encode_utf8("\n"@)
        + encode_utf8("Content-Length: "@) + decimal(f.contents.len()) + encode_utf8("\n\n"@)
}

/// The bytes sent for a response: the status line alone when there is no
/// file; otherwise the status line, the headers, and the file's bytes.
pub open spec fn response_bytes(code: nat, status: Seq<char>, file: Option<FileView>) -> Seq<u8> {
    match file {
        Some(f) => status_line(code, status) + file_headers(f) + f.contents,
        None => status_line(code, status),
    }
}

/// A response to one request: an optional file, a status code and its text.
pub struct Response {
    pub file: Option<ReadFile>,
    pub code: usize,
    pub status: String,
}

/// The bytes that `r` is sent as.
pub open spec fn bytes_of(r: Response) -> Seq<u8> {
    response_bytes(r.code as nat, r.status@, file_view(r.file))
}

/// Appends the decimal digits of `n`.
fn push_decimal(out: &mut Vec<u8>, n: usize)
    ensures
        final(out)@ == old(out)@ + decimal(n as nat),
    decreases n,
{
    if n >= 10 {
        push_decimal(out, n / 10);
    }
    out.push((48 + n % 10) as u8);
    assert(out@ =~= old(out)@ + decimal(n as nat));
}

/// Appends the UTF-8 encoding of `s`.
fn push_text(out: &mut Vec<u8>, s: &str)
    ensures
        final(out)@ == old(out)@ + encode_utf8(s@),
{
    let mut bytes = s.as_bytes_vec();
    out.append(&mut bytes);
}

/// Serialises a response: the status line, then, when a file is attached,
/// its `Content-Type` and `Content-Length` headers, a blank line and its
/// bytes unchanged.
pub fn prepare_response_buffer(response: Response) -> (r: Vec<u8>)
    ensures
        r@ == bytes_of(response),
{
    let Response { file, code, status } = response;
    let mut out: Vec<u8> = Vec::new();
    push_text(&mut out, "HTTP/1.1 ");
    push_decimal(&mut out, code);
    push_text(&mut out, " ");
    push_text(&mut out, status.as_str());
    push_text(&mut out, "\n");
    assert(out@ =~= status_line(code as nat, status@));
    match file {
        Some(f) => {
            let ghost fv = f@;
            let ghost start = out@;
            let length = f.length();
            push_text(&mut out, "Content-Type: ");
            push_text(&mut out, parse_mime(f.extension()));
            push_text(&mut out, "\n");
            push_text(&mut out, "Content-Length: ");
            push_decimal(&mut out, length);
            push_text(&mut out, "\n\n");
            assert(out@ =~= start + file_headers(fv));
            let mut body = f.into_buffer();
            out.append(&mut body);
            assert(out@ =~= start + file_headers(fv) + fv.contents);
        },
        None => {},
    }
    out
}

} // verus!
