//! Paths inside a medium's tree, kept as text with `/` between components.

use vstd::prelude::*;
use vstd::string::*;

verus! {

/// The path that results from adjoining `name` to `base`: a `name` that
/// starts at the root replaces `base`; otherwise `name` follows `base`, with a
/// separator between them unless `base` is empty or already ends in one.
pub open spec fn joined(base: Seq<char>, name: Seq<char>) -> Seq<char> {
    if name.len() > 0 && name[0] == '/' {
        name
    } else if base.len() == 0 || base.last() == '/' {
        base + name
    } else {
        base + seq!['/'] + name
    }
}

/// Where a node lies on its medium's backend: the medium's root, then the
/// node's stored path, then its basename.
pub open spec fn physical(root: Seq<char>, path: Seq<char>, basename: Seq<char>) -> Seq<char> {
    joined(joined(root, path), basename)
}

/// Adjoins `name` to `base`.
pub fn join(base: &str, name: &str) -> (out: String)
    ensures
        out@ == joined(base@, name@),
{
    let name_len = name.unicode_len();
    if name_len > 0 && name.get_char(0) == '/' {
        return String::from_str(name);
    }
    let base_len = base.unicode_len();
    let mut out = String::from_str(base);
    if base_len > 0 && base.get_char(base_len - 1) != '/' {
        proof {
            reveal_strlit("/");
        }
        out.append("/");
        assert(out@ =~= base@ + seq!['/']);
    }
    out.append(name);
    out
}

/// The location on the backend of the node with the given stored path and
/// basename, on a medium rooted at `root`.
pub fn physical_path(root: &str, path: &str, basename: &str) -> (out: String)
    ensures
        out@ == physical(root@, path@, basename@),
{
    let dir = join(root, path);
    join(dir.as_str(), basename)
}

} // verus!
