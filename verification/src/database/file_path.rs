//! The key under which a stored file is known: its code and its file name.

use crate::text::{push_char, push_str};
use vstd::prelude::*;

verus! {

/// Where a stored file can be found: `{code}/{file_name}`.
#[derive(Debug)]
pub struct FilePath {
    pub code: String,
    pub file_name: String,
}

/// The mathematical value of a `FilePath`.
pub struct FilePathView {
    pub code: Seq<char>,
    pub file_name: Seq<char>,
}

impl View for FilePath {
    type V = FilePathView;

    open spec fn view(&self) -> FilePathView {
        FilePathView { code: self.code@, file_name: self.file_name@ }
    }
}

/// The URL path of a file: its code, a slash, and its name.
pub open spec fn url_path_of(p: FilePathView) -> Seq<char> {
    p.code + seq!['/'] + p.file_name
}

/// What `Path::join` gives for a relative path `rel` under `base`: `rel`
/// itself when it is absolute, `base` with `rel` appended after a separator
/// otherwise (no separator is added after an empty base or one that already
/// ends in `/`).
pub open spec fn path_join(base: Seq<char>, rel: Seq<char>) -> Seq<char> {
    if rel.len() > 0 && rel[0] == '/' {
        rel
    } else if base.len() == 0 || base.last() == '/' {
        base + rel
    } else {
        base + seq!['/'] + rel
    }
}

/// Joins `rel` onto `base` the way `Path::join` does.
pub fn join_path(base: &str, rel: &str) -> (r: String)
    ensures
        r@ == path_join(base@, rel@),
{
    let rel_chars = crate::text::chars_of(rel);
    let base_chars = crate::text::chars_of(base);
    if rel_chars.len() > 0 && rel_chars[0] == '/' {
        return crate::text::string_from_chars(rel_chars.as_slice());
    }
    let mut r = crate::text::string_from_chars(base_chars.as_slice());
    if !(base_chars.len() == 0 || base_chars[base_chars.len() - 1] == '/') {
        push_char(&mut r, '/');
    }
    push_str(&mut r, rel);
    r
}

impl FilePath {
    /// Makes a path out of a code and a file name.
    pub fn new(code: String, file_name: String) -> (r: FilePath)
        ensures
            r@ == (FilePathView { code: code@, file_name: file_name@ }),
    {
        FilePath { code, file_name }
    }

    /// A copy of the path.
    pub fn duplicate(&self) -> (r: FilePath)
        ensures
            r@ == self@,
    {
        FilePath { code: self.code.clone(), file_name: self.file_name.clone() }
    }

    /// Whether two paths name the same file.
    pub fn same(&self, other: &FilePath) -> (r: bool)
        ensures
            r == (self@ == other@),
    {
        self.code == other.code && self.file_name == other.file_name
    }

    /// The path as it appears in URLs: `{code}/{file_name}`.
    pub fn url_path(&self) -> (r: String)
        ensures
            r@ == url_path_of(self@),
    {
        let mut r = self.code.clone();
        push_char(&mut r, '/');
        push_str(&mut r, self.file_name.as_str());
        r
    }

    /// The text of the path, `{code}/{file_name}` (what `Display` prints in the
    /// service).
    pub fn to_string(&self) -> (r: String)
        ensures
            r@ == url_path_of(self@),
    {
        self.url_path()
    }

    /// Where the file is stored under the directory `base_dir`.
    pub fn fs_path(&self, base_dir: &str) -> (r: String)
        ensures
            r@ == path_join(base_dir@, url_path_of(self@)),
    {
        let rel = self.url_path();
        join_path(base_dir, rel.as_str())
    }
}

} // verus!
