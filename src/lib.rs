//! A minimal static-file HTTP server's core: reading the request line,
//! resolving the requested file under the static root, and assembling the
//! response byte for byte.
mod text;

pub mod connection;
pub mod file;
pub mod mime;
pub mod request;
pub mod response;

pub use connection::{
    fallback_needed, file_path, respond, response_for, FALLBACK_PATH, STATIC_ROOT,
};
pub use file::{path_extension, resolve_file, ReadFile};
pub use mime::parse_mime;
pub use request::{parse_request_line, LineEvent, Request, RequestError, RequestReader};
pub use response::{prepare_response_buffer, Response};
