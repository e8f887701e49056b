use vstd::prelude::*;

verus! {

/// What `std::path::Path::join` gives for `base` and `path`, on the platform that the library
/// is built for.
pub uninterp spec fn path_join(base: Seq<char>, path: Seq<char>) -> Seq<char>;

/// What `std::path::Path::is_relative` says of `path`, on the platform that the library is
/// built for.
pub uninterp spec fn path_is_relative(path: Seq<char>) -> bool;

/// What `std::path::Path::strip_prefix` leaves of `path` without the leading `base`, on the
/// platform that the library is built for; `None` where `path` does not start with `base`.
pub uninterp spec fn path_strip_prefix(path: Seq<char>, base: Seq<char>) -> Option<Seq<char>>;

/// Where `path` lies when a relative path is taken from `root`.
pub open spec fn resolved(root: Seq<char>, path: Seq<char>) -> Seq<char> {
    if path_is_relative(path) {
        path_join(root, path)
    } else {
        path
    }
}

/// `path` as seen from `root` where it lies below it, else `path` itself.
pub open spec fn relativized(root: Seq<char>, path: Seq<char>) -> Seq<char> {
    match path_strip_prefix(path, root) {
        Some(rest) => rest,
        None => path,
    }
}

/// Calls `std::path::Path::join`. Both arguments are text, so the joined path is text too.
#[verifier::external_body]
fn join_outside(base: &str, path: &str) -> (r: String)
    ensures
        r@ == path_join(base@, path@),
{
    std::path::Path::new(base).join(path).to_string_lossy().into_owned()
}

/// Calls `std::path::Path::is_relative`.
#[verifier::external_body]
fn is_relative_outside(path: &str) -> (r: bool)
    ensures
        r == path_is_relative(path@),
{
    std::path::Path::new(path).is_relative()
}

/// Calls `std::path::Path::strip_prefix`; its error becomes `None`.
#[verifier::external_body]
fn strip_prefix_outside(path: &str, base: &str) -> (r: Option<String>)
    ensures
        r is None <==> path_strip_prefix(path@, base@) is None,
        r matches Some(rest) ==> path_strip_prefix(path@, base@) == Some(rest@),
{
    match std::path::Path::new(path).strip_prefix(base) {
        Ok(rest) => Some(rest.to_string_lossy().into_owned()),
        Err(_) => None,
    }
}

/// `path` adjoined to `base`.
pub fn join(base: &str, path: &str) -> (r: String)
    ensures
        r@ == path_join(base@, path@),
{
    join_outside(base, path)
}

/// Whether `path` is relative.
pub fn is_relative(path: &str) -> (r: bool)
    ensures
        r == path_is_relative(path@),
{
    is_relative_outside(path)
}

/// Where `path` lies: a relative path is taken from `root`, an absolute one stays.
pub fn resolve(root: &str, path: &str) -> (r: String)
    ensures
        r@ == resolved(root@, path@),
{
    if is_relative_outside(path) {
        join_outside(root, path)
    } else {
        String::from_str(path)
    }
}

/// `path` without the leading `root` where it lies below it, else `path` itself.
pub fn relativize(root: &str, path: &str) -> (r: String)
    ensures
        r@ == relativized(root@, path@),
{
    match strip_prefix_outside(path, root) {
        Some(rest) => rest,
        None => String::from_str(path),
    }
}

} // verus!
