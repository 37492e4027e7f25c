use vstd::prelude::*;
use vstd::string::*;

use crate::text::{chars_of, skip_run, skip_whitespace, skip_word};

verus! {

/// The resource path asked for by a request line: its second word, words
/// being the maximal runs of characters that are not white space. A line
/// with fewer than two words names no path.
pub open spec fn request_target(line: Seq<char>) -> Option<Seq<char>> {
    let first_end = skip_word(line, skip_whitespace(line, 0));
    let start = skip_whitespace(line, first_end);
    let end = skip_word(line, start);
    if start < end {
        Some(line.subrange(start, end))
    } else {
        None
    }
}

/// Why no request could be taken from a connection.
#[derive(Debug, Clone, Copy, PartialEq, Eq, Structural)]
pub enum RequestError {
    /// Reading a line failed or it was not valid text.
    Unreadable,
    /// The header block ended before any line arrived.
    MissingRequestLine,
    /// The request line has no second field.
    MissingPath,
}

/// A request, reduced to the path it asks for.
pub struct Request {
    pub path: String,
}

/// What a connection yields next while its header block is read.
pub enum LineEvent {
    /// What one read of a line gave: its text together with the line feed
    /// that ended it. A piece without a line feed is what the peer sent
    /// just before closing the stream, and is no complete line.
    Line(String),
    /// The peer closed the stream.
    End,
    /// Reading or decoding the next line failed.
    Failed,
}

/// Whether a piece read from the stream is a complete line: it ends with a
/// line feed.
pub open spec fn is_complete(raw: Seq<char>) -> bool {
    raw.len() > 0 && raw.last() == '\n'
}

/// The text of a complete line: without its line feed, and without the
/// carriage return before it when there is one.
pub open spec fn line_text(raw: Seq<char>) -> Seq<char> {
    let body = raw.drop_last();
    if body.len() > 0 && body.last() == '\r' {
        body.drop_last()
    } else {
        body
    }
}

/// The outcome of a header block whose first line was `first` (`None` when
/// no line came before the block ended).
pub open spec fn request_of(first: Option<Seq<char>>) -> Result<Seq<char>, RequestError> {
    match first {
        None => Err(RequestError::MissingRequestLine),
        Some(line) => match request_target(line) {
            Some(p) => Ok(p),
            None => Err(RequestError::MissingPath),
        },
    }
}

/// The first line seen, once `line` has been read after the lines summed up
/// by `first`.
pub open spec fn after_line(first: Option<Seq<char>>, line: Seq<char>) -> Option<Seq<char>> {
    match first {
        Some(l) => Some(l),
        None => Some(line),
    }
}

/// The first line seen, once each of `lines` has been read in turn.
pub open spec fn after_lines(first: Option<Seq<char>>, lines: Seq<Seq<char>>) -> Option<Seq<char>>
    decreases lines.len(),
{
    if lines.len() == 0 {
        first
    } else {
        after_lines(after_line(first, lines[0]), lines.drop_first())
    }
}

/// The view of what a step of the reader returned: `None` while more lines
/// are wanted, else the requested path or the error.
pub open spec fn outcome_view(r: Option<Result<Request, RequestError>>) -> Option<
    Result<Seq<char>, RequestError>,
> {
    match r {
        None => None,
        Some(Ok(req)) => Some(Ok(req.path@)),
        Some(Err(e)) => Some(Err(e)),
    }
}

/// Takes the path from a request line (see `request_target`).
pub fn parse_request_line(line: &str) -> (r: Option<String>)
    ensures
        match r {
            Some(p) => request_target(line@) == Some(p@),
            None => request_target(line@) is None,
        },
{
    let chars = chars_of(line);
    let first_start = skip_run(&chars, 0, true);
    let first_end = skip_run(&chars, first_start, false);
    let start = skip_run(&chars, first_end, true);
    let end = skip_run(&chars, start, false);
    if start < end {
        Some(line.substring_char(start, end).to_owned())
    } else {
        None
    }
}

/// Reads a request's header block one line at a time, keeping its first
/// line; every later header line is read and ignored.
pub struct RequestReader {
    first_line: Option<String>,
}

impl View for RequestReader {
    type V = Option<Seq<char>>;

    closed spec fn view(&self) -> Option<Seq<char>> {
        match self.first_line {
            Some(l) => Some(l@),
            None => None,
        }
    }
}

impl RequestReader {
    /// A reader that has seen no line yet.
    pub fn new() -> (r: RequestReader)
        ensures
            r@ is None,
    {
        RequestReader { first_line: None }
    }

    /// Takes what the connection yielded next. A complete line with text
    /// asks for more (`None`); the first one is kept. A complete empty line,
    /// a piece without a line feed, or the end of the stream closes the
    /// block: the path of the first line, or the error that it lacks. A
    /// failed read ends it with `Unreadable`.
    pub fn get_request(&mut self, event: LineEvent) -> (r: Option<Result<Request, RequestError>>)
        ensures
            match event {
                LineEvent::Failed => outcome_view(r) == Some(
                    Err::<Seq<char>, RequestError>(RequestError::Unreadable),
                ),
                LineEvent::Line(s) => if is_complete(s@) && line_text(s@).len() > 0 {
                    r is None && final(self)@ == after_line(old(self)@, line_text(s@))
                } else {
                    outcome_view(r) == Some(request_of(old(self)@))
                },
                LineEvent::End => outcome_view(r) == Some(request_of(old(self)@)),
            },
    {
        match event {
            LineEvent::Failed => Some(Err(RequestError::Unreadable)),
            LineEvent::Line(s) => {
                let raw = s.as_str();
                let n = raw.unicode_len();
                if n == 0 || raw.get_char(n - 1) != '\n' {
                    return Some(self.finish());
                }
                let end = if n > 1 && raw.get_char(n - 2) == '\r' {
                    n - 2
                } else {
                    n - 1
                };
                assert(raw@.subrange(0, end as int) =~= line_text(raw@));
                if end == 0 {
                    return Some(self.finish());
                }
                if self.first_line.is_none() {
                    self.first_line = Some(raw.substring_char(0, end).to_owned());
                }
                None
            },
            LineEvent::End => Some(self.finish()),
        }
    }

    /// The outcome once the header block has closed.
    fn finish(&self) -> (r: Result<Request, RequestError>)
        ensures
            outcome_view(Some(r)) == Some(request_of(self@)),
    {
        match &self.first_line {
            None => Err(RequestError::MissingRequestLine),
            Some(line) => match parse_request_line(line.as_str()) {
                Some(path) => Ok(Request { path }),
                None => Err(RequestError::MissingPath),
            },
        }
    }
}

/// Header lines are ignored: once a first line has been read, any further
/// lines leave the reader's outcome as it was with the first line alone.
pub proof fn lemma_headers_ignored(first: Seq<char>, headers: Seq<Seq<char>>)
    ensures
        request_of(after_lines(None, seq![first] + headers)) == request_of(
            after_lines(None, seq![first]),
        ),
{
    let all = seq![first] + headers;
    assert(all[0] == first);
    assert(all.drop_first() =~= headers);
    assert(seq![first].drop_first() =~= Seq::<Seq<char>>::empty());
    assert(after_lines(None, all) == after_lines(Some(first), headers));
    assert(after_lines(None, seq![first]) == after_lines(Some(first), Seq::<Seq<char>>::empty()));
    lemma_first_line_kept(first, headers);
}

/// Once a first line is held, reading more lines keeps it.
proof fn lemma_first_line_kept(first: Seq<char>, lines: Seq<Seq<char>>)
    ensures
        after_lines(Some(first), lines) == Some(first),
    decreases lines.len(),
{
    if lines.len() > 0 {
        lemma_first_line_kept(first, lines.drop_first());
    }
}

} // verus!

verus! {

/// A connection that closes before sending a complete line yields no
/// request, so nothing is answered.
pub proof fn lemma_no_line_no_request()
    ensures
        request_of(after_lines(None, Seq::<Seq<char>>::empty())) == Err::<Seq<char>, RequestError>(
            RequestError::MissingRequestLine,
        ),
{
}

} // verus!
