use vstd::prelude::*;

verus! {

/// What `std::path::Path::extension` yields for a path, as text.
pub uninterp spec fn path_extension(path: Seq<char>) -> Option<Seq<char>>;

/// What `std::path::Path::parent` yields for a path, as text.
pub uninterp spec fn path_parent(path: Seq<char>) -> Option<Seq<char>>;

/// What `std::path::Path::join` yields for a directory and a file name.
pub uninterp spec fn path_join(dir: Seq<char>, name: Seq<char>) -> Seq<char>;

/// Relies on `std::path::Path::extension`: the part of the file name after
/// its final dot, when there is one. An extension taken from UTF-8 text is
/// UTF-8 itself, so the lossy conversion never alters it.
#[verifier::external_body]
pub(crate) fn file_extension(path: &str) -> (r: Option<String>)
    ensures
        r matches Some(e) ==> path_extension(path@) == Some(e@),
        r is None ==> path_extension(path@) is None,
{
    std::path::Path::new(path).extension().map(|e| e.to_string_lossy().into_owned())
}

/// Relies on `std::path::Path::parent`: the path without its final
/// component, or nothing when the path ends in a root or is empty.
#[verifier::external_body]
pub(crate) fn parent_dir(path: &str) -> (r: Option<String>)
    ensures
        r matches Some(p) ==> path_parent(path@) == Some(p@),
        r is None ==> path_parent(path@) is None,
{
    std::path::Path::new(path).parent().map(|p| p.to_string_lossy().into_owned())
}

/// Relies on `std::path::Path::join`: `name` appended to `dir` as a further
/// component.
#[verifier::external_body]
pub(crate) fn join_path(dir: &str, name: &str) -> (r: String)
    ensures
        r@ == path_join(dir@, name@),
{
    std::path::Path::new(dir).join(name).to_string_lossy().into_owned()
}

} // verus!
