//! Path text as `std::path::Path` reads it: joining, the final component and
//! its extension, whether one path leads another, and what is left of a path
//! after a leading one. The results are named, not restated: they follow the
//! path grammar of the platform the crate is built for (separators, and on
//! Windows drive and UNC prefixes), which is std's to define.
use vstd::prelude::*;

verus! {

/// What `Path::new(base).join(seg)` gives, as text.
pub uninterp spec fn path_join(base: Seq<char>, seg: Seq<char>) -> Seq<char>;

/// What `Path::new(p).file_name()` gives, as text: the final component, or
/// `None` when the path ends in `..` or has no component to name.
pub uninterp spec fn file_name_spec(p: Seq<char>) -> Option<Seq<char>>;

/// What `Path::new(p).extension()` gives, as text.
pub uninterp spec fn extension_spec(p: Seq<char>) -> Option<Seq<char>>;

/// What `Path::new(p).starts_with(base)` gives: `base` leads `p`, component
/// by component.
pub uninterp spec fn path_has_prefix(p: Seq<char>, base: Seq<char>) -> bool;

/// What `Path::new(p).strip_prefix(base)` gives, as text: the rest of `p`
/// after the leading path `base`, or `None` when `base` does not lead it.
pub uninterp spec fn strip_base(p: Seq<char>, base: Seq<char>) -> Option<Seq<char>>;

/// Calls `Path::join` on `base` and `seg`; the joined path of two texts is
/// text again, so it is taken back whole. The result is named `path_join`.
#[verifier::external_body]
pub(crate) fn join_path(base: &str, seg: &str) -> (r: String)
    ensures
        r@ == path_join(base@, seg@),
{
    std::path::Path::new(base).join(seg).to_string_lossy().into_owned()
}

/// Calls `Path::file_name` on `p`; a component of a text path is text. The
/// result is named `file_name_spec`.
#[verifier::external_body]
pub(crate) fn file_name(p: &str) -> (r: Option<String>)
    ensures
        match r {
            Some(x) => file_name_spec(p@) == Some(x@),
            None => file_name_spec(p@).is_none(),
        },
{
    std::path::Path::new(p).file_name().map(|n| n.to_string_lossy().into_owned())
}

/// Calls `Path::extension` on `p`. The result is named `extension_spec`.
#[verifier::external_body]
pub(crate) fn extension(p: &str) -> (r: Option<String>)
    ensures
        match r {
            Some(x) => extension_spec(p@) == Some(x@),
            None => extension_spec(p@).is_none(),
        },
{
    std::path::Path::new(p).extension().map(|e| e.to_string_lossy().into_owned())
}

/// Calls `Path::starts_with`. The result is named `path_has_prefix`.
#[verifier::external_body]
pub(crate) fn path_starts_with(p: &str, base: &str) -> (r: bool)
    ensures
        r == path_has_prefix(p@, base@),
{
    std::path::Path::new(p).starts_with(base)
}

/// Calls `Path::strip_prefix`; what is left of a text path is text. The
/// result is named `strip_base`.
#[verifier::external_body]
pub(crate) fn strip_path_prefix(p: &str, base: &str) -> (r: Option<String>)
    ensures
        match r {
            Some(x) => strip_base(p@, base@) == Some(x@),
            None => strip_base(p@, base@).is_none(),
        },
{
    match std::path::Path::new(p).strip_prefix(base) {
        Ok(rest) => Some(rest.to_string_lossy().into_owned()),
        Err(_) => None,
    }
}

} // verus!
