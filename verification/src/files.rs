//! Paths as text, and what a caller found at them.

use vstd::prelude::*;
use vstd::string::StrSliceExecFns;
use vstd::string::StringExecFns;

verus! {

/// The path of `name` inside the directory `base`: the two joined by one
/// `/`, which is left out where `base` is empty or already ends in one.
pub open spec fn join(base: Seq<char>, name: Seq<char>) -> Seq<char> {
    if base.len() == 0 || base.last() == '/' {
        base + name
    } else {
        base + seq!['/'] + name
    }
}

/// The path of `name` inside the directory `base`.
pub fn join_path(base: &str, name: &str) -> (path: String)
    ensures
        path@ == join(base@, name@),
{
    let n = base.unicode_len();
    let mut path = String::from_str(base);
    if n > 0 && base.get_char(n - 1) != '/' {
        path.push('/');
    }
    path.append(name);
    path
}

/// What stands at a path.
#[derive(Debug, Clone, Copy, PartialEq, Eq, Structural)]
pub enum PathState {
    /// Nothing.
    Absent,
    /// A regular file.
    File,
    /// Something else, such as a directory.
    Other,
}

/// What became of one file that a caller was to read.
#[derive(Debug, Clone, PartialEq, Eq)]
pub enum FileRead {
    /// The file was not there, so nothing was read.
    Absent,
    /// The file was there and reading it failed.
    Unreadable,
    /// The whole file, as text.
    Text(String),
}

impl FileRead {
    /// The text that was read, if any was.
    pub open spec fn text(self) -> Option<Seq<char>> {
        match self {
            FileRead::Text(t) => Some(t@),
            _ => None,
        }
    }
}

} // verus!
