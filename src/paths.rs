//! Files named in a scene description are found beside the scene file.
use vstd::prelude::*;

verus! {

/// What `Path::parent` gives for a path written as `s`.
pub uninterp spec fn parent_of(s: Seq<char>) -> Option<Seq<char>>;

/// What `Path::join` gives for a directory `dir` and a relative or absolute path `file`.
pub uninterp spec fn joined_path(dir: Seq<char>, file: Seq<char>) -> Seq<char>;

/// Relies on `Path::parent`: the path without its last component, or `None`
/// for the empty path and for a path that ends in a root.
#[verifier::external_body]
fn parent_dir(path: &str) -> (r: Option<String>)
    ensures
        match r {
            Some(d) => parent_of(path@) == Some(d@),
            None => parent_of(path@) is None,
        },
        path@.len() == 0 ==> r is None,
{
    std::path::Path::new(path).parent().map(|p| p.to_string_lossy().into_owned())
}

/// Relies on `Path::join`: `file` resolved against the directory `dir`.
#[verifier::external_body]
fn join_path(dir: &str, file: &str) -> (r: String)
    ensures
        r@ == joined_path(dir@, file@),
{
    std::path::Path::new(dir).join(file).to_string_lossy().into_owned()
}

/// The directory that holds `base`: its parent, or the empty path where it has none.
pub open spec fn dir_of(base: Seq<char>) -> Seq<char> {
    match parent_of(base) {
        Some(d) => d,
        None => Seq::<char>::empty(),
    }
}

/// The path of `filename` taken relative to the directory of `base_file`.
pub fn same_dir_file(filename: &str, base_file: &str) -> (r: String)
    ensures
        r@ == joined_path(dir_of(base_file@), filename@),
{
    let dir = match parent_dir(base_file) {
        Some(d) => d,
        None => String::new(),
    };
    join_path(dir.as_str(), filename)
}

} // verus!
