//! Derivation of the target directory path: the working directory with the
//! program name appended as a single path segment.
//!
//! The name is appended literally, with no normalization, sanitization or
//! traversal check: a name containing separator characters is reflected in
//! the resulting path as it stands.

use vstd::prelude::*;

verus! {

/// The target path: `cwd` with `name` appended as one path segment. A
/// separator is inserted only where one is not already present, and an
/// empty working directory contributes nothing.
pub open spec fn target_path_spec(cwd: Seq<char>, name: Seq<char>) -> Seq<char> {
    if cwd.len() == 0 {
        name
    } else if cwd.last() == '/' {
        cwd + name
    } else {
        cwd + "/"@ + name
    }
}

/// Appends the program name to the working directory as a path segment.
pub fn join_path(cwd: &str, name: &str) -> (r: String)
    ensures
        r@ == target_path_spec(cwd@, name@),
{
    let n = cwd.unicode_len();
    if n == 0 {
        String::from_str(name)
    } else if cwd.get_char(n - 1) == '/' {
        String::from_str(cwd).concat(name)
    } else {
        String::from_str(cwd).concat("/").concat(name)
    }
}

} // verus!
