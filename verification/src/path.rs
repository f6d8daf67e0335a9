//! Paths, as text, on systems where `/` parts a path and nothing else does.
//! Joining is done here. What the parent of a path is, and how a path is
//! quoted, is left to `std::path`.

use vstd::prelude::*;
use vstd::string::StringExecFns;
use crate::text::chars_of;

verus! {

/// The two paths joined as `Path::join` joins them where `/` parts a path
/// and nothing else does: a second path that starts at the root stands for
/// itself; any other is set behind the first, with a `/` between them unless
/// the first is empty or ends in one.
pub open spec fn joined(base: Seq<char>, rest: Seq<char>) -> Seq<char> {
    if rest.len() > 0 && rest[0] == '/' {
        rest
    } else if base.len() > 0 && base.last() != '/' {
        base + seq!['/'] + rest
    } else {
        base + rest
    }
}

/// `Path::parent` of the path: the path without its last component, where
/// it has one.
pub uninterp spec fn parent_of(path: Seq<char>) -> Option<Seq<char>>;

/// The path as the `Debug` format of `Path` writes it: between double
/// quotes, with escapes.
pub uninterp spec fn quoted(path: Seq<char>) -> Seq<char>;

/// Joins two paths.
pub fn join(base: &str, rest: &str) -> (r: String)
    ensures
        r@ == joined(base@, rest@),
{
    let second = chars_of(rest);
    if second.len() > 0 && second[0] == '/' {
        return String::from_str(rest);
    }
    let first = chars_of(base);
    let mut path = String::from_str(base);
    if first.len() > 0 && first[first.len() - 1] != '/' {
        proof {
            reveal_strlit("/");
        }
        assert("/"@ =~= seq!['/']);
        path.append("/");
    }
    path.append(rest);
    path
}

/// Whether `above` is the start of `path` and shorter than it.
pub open spec fn starts(above: Seq<char>, path: Seq<char>) -> bool {
    above.len() < path.len() && above == path.take(above.len() as int)
}

/// `Path::parent`. The contract names the result, and says of it that a
/// parent is its path without the end: `Path::parent` hands back a part of
/// the path it was called on, from the start to before the last component.
#[verifier::external_body]
pub(crate) fn parent(path: &str) -> (r: Option<String>)
    ensures
        r.deep_view() == parent_of(path@),
        r matches Some(above) ==> starts(above@, path@),
{
    std::path::Path::new(path).parent().map(|p| p.to_string_lossy().into_owned())
}

/// The `Debug` format of `Path`. The contract names the result.
#[verifier::external_body]
pub(crate) fn quote(path: &str) -> (r: String)
    ensures
        r@ == quoted(path@),
{
    format!("{:?}", std::path::Path::new(path))
}

} // verus!
