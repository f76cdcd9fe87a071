//! Paths as strings, with `/` as the separator.

use vstd::prelude::*;

verus! {

/// The path `name` relative to `base`: `name` itself when it is absolute,
/// otherwise `name` appended to `base` with one separator between them.
pub open spec fn join_spec(base: Seq<char>, name: Seq<char>) -> Seq<char> {
    if name.len() > 0 && name[0] == '/' {
        name
    } else if base.len() == 0 || base.last() == '/' {
        base + name
    } else {
        base + seq!['/'] + name
    }
}

/// Joins `name` onto `base` as `std::path::Path::join` does on Unix.
pub fn join(base: &str, name: &str) -> (r: String)
    ensures
        r@ == join_spec(base@, name@),
{
    let name_len = name.unicode_len();
    if name_len > 0 && name.get_char(0) == '/' {
        return String::from_str(name);
    }
    let base_len = base.unicode_len();
    let joined = if base_len == 0 || base.get_char(base_len - 1) == '/' {
        String::from_str(base)
    } else {
        proof {
            reveal_strlit("/");
        }
        String::from_str(base).concat("/")
    };
    joined.concat(name)
}

/// The parent directory of a path, as `std::path::Path::parent` gives it.
pub uninterp spec fn parent_of(path: Seq<char>) -> Option<Seq<char>>;

/// Relies on `std::path::Path::parent`: the path without its final
/// component, or nothing for a root or an empty path. The parent of a path
/// held in a `str` is again valid UTF-8, so the conversion loses nothing.
#[verifier::external_body]
pub(crate) fn parent(path: &str) -> (r: Option<String>)
    ensures
        match r {
            Some(p) => parent_of(path@) == Some(p@),
            None => parent_of(path@) is None,
        },
{
    std::path::Path::new(path).parent().map(|p| p.to_string_lossy().into_owned())
}

/// The `k`-th ancestor of `path`, nearest first: `path` itself, then its
/// parent, and so on; nothing past the topmost.
pub open spec fn ancestor(path: Seq<char>, k: nat) -> Option<Seq<char>>
    decreases k,
{
    if k == 0 {
        Some(path)
    } else {
        match parent_of(path) {
            Some(p) => ancestor(p, (k - 1) as nat),
            None => None,
        }
    }
}

} // verus!
