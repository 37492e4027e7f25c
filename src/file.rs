use vstd::prelude::*;
use vstd::string::*;

use crate::text::{find_last, last_index};

verus! {

/// The final path component: everything after the last `/`.
pub open spec fn file_name(path: Seq<char>) -> Seq<char> {
    match last_index(path, '/') {
        Some(i) => path.subrange(i + 1, path.len() as int),
        None => path,
    }
}

/// The extension of a path's final component: the text after its last dot.
/// There is none when the component has no dot, when its only dot is the
/// leading one (`.profile`), or when the component is `..`.
pub open spec fn extension_of(path: Seq<char>) -> Option<Seq<char>> {
    let name = file_name(path);
    if name == ".."@ {
        None
    } else {
        match last_index(name, '.') {
            Some(k) => if k > 0 {
                Some(name.subrange(k + 1, name.len() as int))
            } else {
                None
            },
            None => None,
        }
    }
}

/// What a resolved file carries: its extension and its bytes.
pub ghost struct FileView {
    pub extension: Seq<char>,
    pub contents: Seq<u8>,
}

/// The outcome of resolving `path` when reading it gave `contents`
/// (`None` when the file could not be opened or read): a file is present
/// only when it was read and its path has an extension.
pub open spec fn resolved(path: Seq<char>, contents: Option<Seq<u8>>) -> Option<FileView> {
    match (contents, extension_of(path)) {
        (Some(c), Some(e)) => Some(FileView { extension: e, contents: c }),
        _ => None,
    }
}

/// A file read in full from the static root, with its byte count and its
/// extension. The byte count always equals the length of the contents.
pub struct ReadFile {
    length: usize,
    buffer: Vec<u8>,
    extension: String,
}

impl View for ReadFile {
    type V = FileView;

    closed spec fn view(&self) -> FileView {
        FileView { extension: self.extension@, contents: self.buffer@ }
    }
}

impl ReadFile {
    #[verifier::type_invariant]
    spec fn length_matches(self) -> bool {
        self.length == self.buffer@.len()
    }

    /// The number of bytes in the file.
    pub fn length(&self) -> (r: usize)
        ensures
            r == self@.contents.len(),
    {
        proof {
            use_type_invariant(self);
        }
        self.length
    }

    /// The file's contents.
    pub fn buffer(&self) -> (r: &Vec<u8>)
        ensures
            r@ == self@.contents,
    {
        &self.buffer
    }

    /// The file's extension, without the dot.
    pub fn extension(&self) -> (r: &str)
        ensures
            r@ == self@.extension,
    {
        self.extension.as_str()
    }

    /// Gives up the file, keeping its contents.
    pub fn into_buffer(self) -> (r: Vec<u8>)
        ensures
            r@ == self@.contents,
    {
        self.buffer
    }
}

/// The view of an optional file.
pub open spec fn file_view(f: Option<ReadFile>) -> Option<FileView> {
    match f {
        Some(x) => Some(x@),
        None => None,
    }
}

/// The view of optional bytes.
pub open spec fn bytes_view(b: Option<Vec<u8>>) -> Option<Seq<u8>> {
    match b {
        Some(v) => Some(v@),
        None => None,
    }
}

/// The extension of a path's final component, if it has one (see
/// `extension_of`).
pub fn path_extension(path: &str) -> (r: Option<String>)
    ensures
        match r {
            Some(e) => extension_of(path@) == Some(e@),
            None => extension_of(path@) is None,
        },
{
    let n = path.unicode_len();
    let name = match find_last(path, '/') {
        Some(i) => path.substring_char(i + 1, n),
        None => path,
    };
    assert(name@ == file_name(path@));
    let m = name.unicode_len();
    if m == 2 && name.get_char(0) == '.' && name.get_char(1) == '.' {
        proof {
            reveal_strlit("..");
            assert(name@ =~= ".."@);
        }
        return None;
    }
    proof {
        reveal_strlit("..");
        if name@ == ".."@ {
            assert(name@[0] == '.' && name@[1] == '.');
        }
    }
    match find_last(name, '.') {
        Some(k) => {
            if k > 0 {
                Some(name.substring_char(k + 1, m).to_owned())
            } else {
                None
            }
        },
        None => None,
    }
}

/// Builds the file found at `path` from what reading it gave: the file is
/// present only when `contents` holds bytes and the path has an extension.
pub fn resolve_file(path: &str, contents: Option<Vec<u8>>) -> (r: Option<ReadFile>)
    ensures
        file_view(r) == resolved(path@, bytes_view(contents)),
{
    let extension = path_extension(path);
    match (contents, extension) {
        (Some(buffer), Some(extension)) => {
            let length = buffer.len();
            Some(ReadFile { length, buffer, extension })
        },
        _ => None,
    }
}

} // verus!
