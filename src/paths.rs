//! Path handling, delegated to `std::path`.
use vstd::prelude::*;

verus! {

/// The last component of `p`, as `Path::file_name` gives it.
pub uninterp spec fn path_file_name(p: Seq<char>) -> Option<Seq<char>>;

/// The extension of `p`'s last component, as `Path::extension` gives it.
pub uninterp spec fn path_extension(p: Seq<char>) -> Option<Seq<char>>;

/// `p` without its last component, as `Path::parent` gives it.
pub uninterp spec fn path_parent(p: Seq<char>) -> Option<Seq<char>>;

/// `base` with `part` joined on, as `Path::join` gives it.
pub uninterp spec fn path_joined(base: Seq<char>, part: Seq<char>) -> Seq<char>;

/// The characters of an optional string.
pub open spec fn opt_chars(o: Option<String>) -> Option<Seq<char>> {
    match o {
        Some(s) => Some(s@),
        None => None,
    }
}

/// The characters of an optional text, or none when it is absent.
pub open spec fn or_empty(o: Option<Seq<char>>) -> Seq<char> {
    match o {
        Some(s) => s,
        None => Seq::empty(),
    }
}

/// Relies on `std::path::Path::file_name`: the final component of the path,
/// if there is one. The text came from a `&str`, so the lossy conversion back
/// loses nothing.
#[verifier::external_body]
pub(crate) fn file_name_of(path: &str) -> (r: Option<String>)
    ensures
        opt_chars(r) == path_file_name(path@),
{
    std::path::Path::new(path).file_name().map(|n| n.to_string_lossy().to_string())
}

/// Relies on `std::path::Path::extension`: the extension of the final
/// component, if there is one.
#[verifier::external_body]
pub(crate) fn extension_of(path: &str) -> (r: Option<String>)
    ensures
        opt_chars(r) == path_extension(path@),
{
    std::path::Path::new(path).extension().map(|e| e.to_string_lossy().to_string())
}

/// Relies on `std::path::Path::parent`: the path without its final
/// component, if there is one.
#[verifier::external_body]
pub(crate) fn parent_of(path: &str) -> (r: Option<String>)
    ensures
        opt_chars(r) == path_parent(path@),
{
    std::path::Path::new(path).parent().map(|p| p.to_string_lossy().to_string())
}

/// Relies on `std::path::Path::join`: `base` with `part` appended as a
/// further component.
#[verifier::external_body]
pub(crate) fn join(base: &str, part: &str) -> (r: String)
    ensures
        r@ == path_joined(base@, part@),
{
    std::path::Path::new(base).join(part).to_string_lossy().to_string()
}

/// Where extensions are installed, under the user's home directory `home`.
pub fn extensions_dir(home: &str) -> (r: String)
    ensures
        r@ == path_joined(path_joined(home@, ".raykit"@), "extensions"@),
{
    let app_dir = join(home, ".raykit");
    join(app_dir.as_str(), "extensions")
}

} // verus!
