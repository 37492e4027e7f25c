use static_server::{
    fallback_needed, file_path, parse_mime, parse_request_line, path_extension,
    prepare_response_buffer, resolve_file, respond, response_for, LineEvent, ReadFile, Request, RequestError, RequestReader,
    Response, FALLBACK_PATH, STATIC_ROOT,
};

fn feed_all(lines: &[&str], end: LineEvent) -> Option<Result<Request, RequestError>> {
    let mut reader = RequestReader::new();
    for line in lines {
        if let Some(done) = reader.get_request(LineEvent::Line(format!("{line}\n"))) {
            return Some(done);
        }
    }
    reader.get_request(end)
}

fn blank() -> LineEvent {
    LineEvent::Line("\n".to_string())
}

fn path_of(outcome: Option<Result<Request, RequestError>>) -> Result<String, RequestError> {
    outcome.expect("block should be closed").map(|r| r.path)
}

/// Serves `path` against an in-memory static root given as (path, bytes).
fn serve(path: &str, files: &[(&str, &[u8])]) -> Vec<u8> {
    let read = |p: &str| files.iter().find(|(n, _)| *n == p).map(|(_, b)| b.to_vec());
    let request = Request { path: path.to_string() };
    let primary = read(&file_path(&request));
    let fallback = if fallback_needed(&request, &primary) { read(FALLBACK_PATH) } else { None };
    respond(&request, primary, fallback)
}

fn file(path: &str, bytes: &[u8]) -> ReadFile {
    resolve_file(path, Some(bytes.to_vec())).expect("path has an extension")
}

#[test]
fn mime_table() {
    assert_eq!(parse_mime("html"), "text/html");
    assert_eq!(parse_mime("png"), "image/png");
    assert_eq!(parse_mime("ico"), "image/png");
}

#[test]
fn mime_unknown_extension_defaults() {
    assert_eq!(parse_mime("gif"), "application/octet-stream");
    assert_eq!(parse_mime("HTML"), "application/octet-stream");
    assert_eq!(parse_mime(""), "application/octet-stream");
}

#[test]
fn request_line_second_field() {
    assert_eq!(parse_request_line("GET /index.html HTTP/1.1"), Some("/index.html".to_string()));
    assert_eq!(parse_request_line("GET /x"), Some("/x".to_string()));
    assert_eq!(parse_request_line("GET  /x HTTP/1.1"), Some("/x".to_string()));
    assert_eq!(parse_request_line("GET\t/x\tHTTP/1.1"), Some("/x".to_string()));
    assert_eq!(parse_request_line("  GET /x"), Some("/x".to_string()));
    assert_eq!(parse_request_line("GET"), None);
    assert_eq!(parse_request_line("GET   "), None);
    assert_eq!(parse_request_line(""), None);
    assert_eq!(parse_request_line("GET /é.html HTTP/1.1"), Some("/é.html".to_string()));
}

#[test]
fn reader_takes_first_line() {
    let out = feed_all(&["GET /index.html HTTP/1.1"], blank());
    assert_eq!(path_of(out).unwrap(), "/index.html");
}

#[test]
fn headers_are_ignored() {
    let plain = feed_all(&["GET /index.html HTTP/1.1"], blank());
    let with_headers = feed_all(
        &["GET /index.html HTTP/1.1", "Host: localhost:8080", "Accept: */*", "GET /other.png HTTP/1.1"],
        blank(),
    );
    assert_eq!(path_of(plain), path_of(with_headers));
}

#[test]
fn end_of_stream_closes_block() {
    let out = feed_all(&["GET /a.png HTTP/1.1", "Host: x"], LineEvent::End);
    assert_eq!(path_of(out).unwrap(), "/a.png");
}

#[test]
fn silent_close_gives_no_request() {
    let out = feed_all(&[], LineEvent::End);
    assert_eq!(path_of(out).unwrap_err(), RequestError::MissingRequestLine);
    let blank = feed_all(&[], blank());
    assert_eq!(path_of(blank).unwrap_err(), RequestError::MissingRequestLine);
}

#[test]
fn request_line_without_path() {
    let out = feed_all(&["GET"], blank());
    assert_eq!(path_of(out).unwrap_err(), RequestError::MissingPath);
}

#[test]
fn read_failure_aborts() {
    let out = feed_all(&["GET /index.html HTTP/1.1"], LineEvent::Failed);
    assert_eq!(path_of(out).unwrap_err(), RequestError::Unreadable);
}

#[test]
fn reader_waits_for_more() {
    let mut reader = RequestReader::new();
    assert!(reader.get_request(LineEvent::Line("GET / HTTP/1.1\n".to_string())).is_none());
    assert!(reader.get_request(LineEvent::Line("Host: x\r\n".to_string())).is_none());
}

#[test]
fn path_joined_to_root() {
    let r = Request { path: "/index.html".to_string() };
    assert_eq!(file_path(&r), "static/index.html");
    let up = Request { path: "/../secret.html".to_string() };
    assert_eq!(file_path(&up), "static/../secret.html");
    assert_eq!(STATIC_ROOT, "static");
}

#[test]
fn extensions() {
    assert_eq!(path_extension("static/index.html"), Some("html".to_string()));
    assert_eq!(path_extension("static/archive.tar.gz"), Some("gz".to_string()));
    assert_eq!(path_extension("static/README"), None);
    assert_eq!(path_extension("static/.profile"), None);
    assert_eq!(path_extension("static/a.b/c"), None);
    assert_eq!(path_extension("static/.."), None);
    assert_eq!(path_extension("static/name."), Some(String::new()));
    assert_eq!(path_extension("static/.x.png"), Some("png".to_string()));
}

#[test]
fn resolve_needs_contents_and_extension() {
    assert!(resolve_file("static/index.html", None).is_none());
    assert!(resolve_file("static/README", Some(b"hello".to_vec())).is_none());
    let f = file("static/index.html", b"<p>hi</p>");
    assert_eq!(f.length(), 9);
    assert_eq!(f.buffer(), &b"<p>hi</p>".to_vec());
    assert_eq!(f.extension(), "html");
}

#[test]
fn response_with_file() {
    let resp = response_for(Some(file("static/index.html", b"<h1>x</h1>")), None);
    assert_eq!(resp.code, 200);
    assert_eq!(resp.status, "OK");
    let bytes = prepare_response_buffer(resp);
    assert_eq!(
        bytes,
        b"HTTP/1.1 200 OK\nContent-Type: text/html\nContent-Length: 10\n\n<h1>x</h1>".to_vec()
    );
}

#[test]
fn response_without_file_is_status_line_only() {
    let resp = Response { file: None, code: 404, status: "NOT FOUND".to_string() };
    assert_eq!(prepare_response_buffer(resp), b"HTTP/1.1 404 NOT FOUND\n".to_vec());
}

#[test]
fn content_length_digits() {
    let body = vec![b'a'; 1234];
    let out = prepare_response_buffer(Response {
        file: Some(file("static/a.png", &body)),
        code: 200,
        status: "OK".to_string(),
    });
    let head = b"HTTP/1.1 200 OK\nContent-Type: image/png\nContent-Length: 1234\n\n".to_vec();
    assert_eq!(&out[..head.len()], &head[..]);
    assert_eq!(&out[head.len()..], &body[..]);
    let empty = prepare_response_buffer(Response {
        file: Some(file("static/e.html", b"")),
        code: 200,
        status: "OK".to_string(),
    });
    assert_eq!(empty, b"HTTP/1.1 200 OK\nContent-Type: text/html\nContent-Length: 0\n\n".to_vec());
}

#[test]
fn unknown_extension_served_as_octet_stream() {
    let out = serve("/data.bin", &[("static/data.bin", b"\x00\x01")]);
    let mut want =
        b"HTTP/1.1 200 OK\nContent-Type: application/octet-stream\nContent-Length: 2\n\n".to_vec();
    want.extend_from_slice(b"\x00\x01");
    assert_eq!(out, want);
}

#[test]
fn existing_file_is_served() {
    let out = serve("/index.html", &[("static/index.html", b"hello"), ("static/404.html", b"nf")]);
    assert_eq!(out, b"HTTP/1.1 200 OK\nContent-Type: text/html\nContent-Length: 5\n\nhello".to_vec());
    let icon = serve("/favicon.ico", &[("static/favicon.ico", b"ICO")]);
    assert_eq!(icon, b"HTTP/1.1 200 OK\nContent-Type: image/png\nContent-Length: 3\n\nICO".to_vec());
}

#[test]
fn missing_file_gets_404_page() {
    let out = serve("/nope.html", &[("static/404.html", b"not here")]);
    assert_eq!(
        out,
        b"HTTP/1.1 404 NOT FOUND\nContent-Type: text/html\nContent-Length: 8\n\nnot here".to_vec()
    );
}

#[test]
fn missing_file_without_404_page() {
    let out = serve("/nope.html", &[]);
    assert_eq!(out, b"HTTP/1.1 404 NOT FOUND\n".to_vec());
}

#[test]
fn extensionless_file_is_missing() {
    let files: &[(&str, &[u8])] = &[("static/README", b"read me"), ("static/404.html", b"nf")];
    assert_eq!(serve("/README", files), serve("/absent.html", files));
    assert_eq!(
        serve("/README", files),
        b"HTTP/1.1 404 NOT FOUND\nContent-Type: text/html\nContent-Length: 2\n\nnf".to_vec()
    );
}

#[test]
fn binary_body_round_trip() {
    let png: Vec<u8> = (0..=255u8).chain([0x89, b'P', b'N', b'G', b'\r', b'\n', 0x1a, b'\n']).collect();
    let out = serve("/img.png", &[("static/img.png", &png)]);
    let head = b"HTTP/1.1 200 OK\nContent-Type: image/png\nContent-Length: 264\n\n".to_vec();
    assert_eq!(&out[..head.len()], &head[..]);
    assert_eq!(&out[head.len()..], &png[..]);
}

#[test]
fn fallback_path_constant() {
    assert_eq!(FALLBACK_PATH, "static/404.html");
    assert_eq!(path_extension(FALLBACK_PATH), Some("html".to_string()));
}

#[test]
fn unterminated_first_line_gives_no_request() {
    let mut reader = RequestReader::new();
    let out = reader.get_request(LineEvent::Line("GET /index.html HTTP/1.1".to_string()));
    assert_eq!(path_of(out).unwrap_err(), RequestError::MissingRequestLine);
}

#[test]
fn unterminated_header_after_request_line() {
    let mut reader = RequestReader::new();
    assert!(reader.get_request(LineEvent::Line("GET /a.html HTTP/1.1\n".to_string())).is_none());
    let out = reader.get_request(LineEvent::Line("Host: x".to_string()));
    assert_eq!(path_of(out).unwrap(), "/a.html");
}

#[test]
fn carriage_returns_are_stripped() {
    let mut reader = RequestReader::new();
    assert!(reader.get_request(LineEvent::Line("GET /a.png HTTP/1.1\r\n".to_string())).is_none());
    let out = reader.get_request(LineEvent::Line("\r\n".to_string()));
    assert_eq!(path_of(out).unwrap(), "/a.png");
}

#[test]
fn fallback_read_only_on_miss() {
    let found = Request { path: "/index.html".to_string() };
    assert!(!fallback_needed(&found, &Some(b"x".to_vec())));
    assert!(fallback_needed(&found, &None));
    let bare = Request { path: "/README".to_string() };
    assert!(fallback_needed(&bare, &Some(b"x".to_vec())));
    let out = respond(&found, Some(b"x".to_vec()), Some(b"nf".to_vec()));
    assert_eq!(out, b"HTTP/1.1 200 OK\nContent-Type: text/html\nContent-Length: 1\n\nx".to_vec());
}
