//! Paths that begin at the home directory.

use vstd::prelude::*;
use vstd::string::{StrSliceExecFns, StringExecFns};

verus! {

/// Whether the first component of `path` is a lone tilde: the path is `~`,
/// or begins with `~/`.
pub open spec fn begins_at_home(path: Seq<char>) -> bool {
    &&& path.len() >= 1
    &&& path[0] == '~'
    &&& path.len() >= 2 ==> path[1] == '/'
}

/// `path` with the home directory in place of a leading tilde; any other
/// path unchanged.
pub open spec fn expanded(path: Seq<char>, home: Seq<char>) -> Seq<char> {
    if begins_at_home(path) {
        home + path.skip(1)
    } else {
        path
    }
}

/// Tests whether `path` begins at the home directory, so that resolving it
/// takes the home directory's name.
pub fn needs_home(path: &str) -> (yes: bool)
    ensures
        yes == begins_at_home(path@),
{
    let len = path.unicode_len();
    if len == 0 {
        return false;
    }
    if path.get_char(0) != '~' {
        return false;
    }
    len == 1 || path.get_char(1) == '/'
}

/// Resolves a path that may begin at the home directory `home`.
pub fn resolve_home(path: &str, home: &str) -> (resolved: String)
    ensures
        resolved@ == expanded(path@, home@),
{
    if needs_home(path) {
        let len = path.unicode_len();
        let rest = path.substring_char(1, len);
        assert(rest@ == path@.skip(1));
        home.to_owned().concat(rest)
    } else {
        path.to_owned()
    }
}

} // verus!
