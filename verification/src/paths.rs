use vstd::prelude::*;
use std::path::PathBuf;

verus! {

/// What `Path::is_relative` answers for a path.
pub uninterp spec fn path_is_relative(p: Seq<char>) -> bool;

/// The text of `PathBuf::join(base, rel)`.
pub uninterp spec fn path_joined(base: Seq<char>, rel: Seq<char>) -> Seq<char>;

/// The text of `Path::parent` of a path, if it has one.
pub uninterp spec fn path_parent(p: Seq<char>) -> Option<Seq<char>>;

/// The text of `Path::file_name` of a path, if it has one.
pub uninterp spec fn path_file_name(p: Seq<char>) -> Option<Seq<char>>;

/// Whether two texts name the same path by `PathBuf`'s `==` (component-wise).
pub uninterp spec fn path_eq(a: Seq<char>, b: Seq<char>) -> bool;

/// Calls `Path::is_relative` on `p`; the answer is named [`path_is_relative`].
#[verifier::external_body]
pub(crate) fn is_relative(p: &str) -> (r: bool)
    ensures
        r == path_is_relative(p@),
{
    PathBuf::from(p).is_relative()
}

/// Calls `PathBuf::join` and `to_string_lossy`; the text is named [`path_joined`].
#[verifier::external_body]
pub(crate) fn join(base: &str, rel: &str) -> (r: String)
    ensures
        r@ == path_joined(base@, rel@),
{
    PathBuf::from(base).join(rel).to_string_lossy().to_string()
}

/// Calls `Path::parent` and `to_string_lossy`; the result is named [`path_parent`].
#[verifier::external_body]
pub(crate) fn parent(p: &str) -> (r: Option<String>)
    ensures
        match r {
            Some(s) => path_parent(p@) == Some(s@),
            None => path_parent(p@) is None,
        },
{
    PathBuf::from(p).parent().map(|q| q.to_string_lossy().to_string())
}

/// Calls `Path::file_name` and `to_string_lossy`; the result is named [`path_file_name`].
#[verifier::external_body]
pub(crate) fn file_name(p: &str) -> (r: Option<String>)
    ensures
        match r {
            Some(s) => path_file_name(p@) == Some(s@),
            None => path_file_name(p@) is None,
        },
{
    PathBuf::from(p).file_name().map(|q| q.to_string_lossy().to_string())
}

/// Compares two paths with `PathBuf`'s `==`; the answer is named [`path_eq`].
#[verifier::external_body]
pub(crate) fn same_path(a: &str, b: &str) -> (r: bool)
    ensures
        r == path_eq(a@, b@),
{
    PathBuf::from(a) == PathBuf::from(b)
}

/// Whether the last character of `s` is `c`.
pub(crate) fn ends_with_char(s: &str, c: char) -> (r: bool)
    ensures
        r == (s@.len() > 0 && s@.last() == c),
{
    let n = s.unicode_len();
    n > 0 && s.get_char(n - 1) == c
}

/// `s` without its last character when that character is `c`.
pub(crate) fn strip_suffix_char(s: &str, c: char) -> (r: Option<String>)
    ensures
        match r {
            Some(t) => s@.len() > 0 && s@.last() == c && t@ == s@.drop_last(),
            None => !(s@.len() > 0 && s@.last() == c),
        },
{
    let n = s.unicode_len();
    if n > 0 && s.get_char(n - 1) == c {
        let t = String::from_str(s.substring_char(0, n - 1));
        assert(t@ =~= s@.drop_last());
        Some(t)
    } else {
        None
    }
}

/// The result of `str::parse::<usize>`, named.
pub uninterp spec fn parsed_usize(s: Seq<char>) -> Option<usize>;

/// Calls `str::parse::<usize>`; the result (the error dropped) is named [`parsed_usize`].
#[verifier::external_body]
pub(crate) fn parse_usize(s: &str) -> (r: Option<usize>)
    ensures
        r == parsed_usize(s@),
{
    s.parse::<usize>().ok()
}

} // verus!
