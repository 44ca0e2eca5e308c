//! Paths as text: how a directory and a name below it make one path.

use vstd::prelude::*;

verus! {

/// A path below a directory, as `std::path::Path::join` forms it on Unix from
/// two texts: a path that starts at the root stands for itself, and any
/// other path follows the directory, after a `/` unless the directory is
/// empty or ends in one.
pub open spec fn join_path(base: Seq<char>, path: Seq<char>) -> Seq<char> {
    if path.len() > 0 && path[0] == '/' {
        path
    } else if base.len() == 0 || base.last() == '/' {
        base + path
    } else {
        base + seq!['/'] + path
    }
}

/// Whether a text can be a directory that other paths are put below by
/// writing `/` and the path after it: it is not empty and does not end in `/`.
pub open spec fn is_plain_directory(base: Seq<char>) -> bool {
    base.len() > 0 && base.last() != '/'
}

/// The path `path` below the directory `base`.
pub fn join(base: &str, path: &str) -> (joined: String)
    ensures
        joined@ == join_path(base@, path@),
{
    proof {
        reveal_strlit("/");
        assert("/"@ =~= seq!['/']);
    }
    let path_len: usize = path.unicode_len();
    if path_len > 0 && path.get_char(0) == '/' {
        return String::from_str(path);
    }
    let base_len: usize = base.unicode_len();
    let mut joined = String::from_str(base);
    if base_len > 0 && base.get_char(base_len - 1) != '/' {
        joined.append("/");
    }
    joined.append(path);
    joined
}

/// Below a plain directory, a path that does not start at the root is the
/// directory, a `/`, and the path; and what comes out is a plain directory
/// again unless the path is empty or ends in `/`.
pub proof fn lemma_join_plain(base: Seq<char>, path: Seq<char>)
    requires
        is_plain_directory(base),
        path.len() == 0 || path[0] != '/',
    ensures
        join_path(base, path) == base + seq!['/'] + path,
        is_plain_directory(path) ==> is_plain_directory(join_path(base, path)),
{
}

} // verus!
