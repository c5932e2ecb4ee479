use vstd::prelude::*;
use vstd::string::*;

verus! {

/// The final component of a path, as text, when the path has one.
pub uninterp spec fn path_file_name(path: Seq<char>) -> Option<Seq<char>>;

/// The final component of `path`, as `std::path::Path::file_name` finds it.
/// Trusted: the result is taken to be `path_file_name` of the path, and
/// `None` when std finds no final component (or one that is not valid
/// UTF-8, which a `&str` path cannot hold).  What that component is for a
/// given path (which characters separate components on the target,
/// trailing separators, `.` and `..`, prefixes) is left unsaid.
#[verifier::external_body]
fn file_name(path: &str) -> (name: Option<String>)
    ensures
        name matches Some(n) ==> path_file_name(path@) == Some(n@),
        name is None ==> path_file_name(path@) is None,
{
    match std::path::Path::new(path).file_name() {
        Some(n) => n.to_str().map(str::to_owned),
        None => None,
    }
}

/// The object key under which a file is uploaded: the file's name when the
/// path has a final component, else the path as it was given.
pub open spec fn upload_key_of(path: Seq<char>, name: Option<Seq<char>>) -> Seq<char> {
    match name {
        Some(n) => n,
        None => path,
    }
}

/// The object key under which the file at `path` is uploaded.
pub open spec fn upload_key_spec(path: Seq<char>) -> Seq<char> {
    upload_key_of(path, path_file_name(path))
}

/// The object key for the file at `path`, given the final component `name`
/// of that path when it has one.
pub fn upload_key_from(path: &str, name: Option<String>) -> (key: String)
    ensures
        key@ == upload_key_of(
            path@,
            match name {
                Some(n) => Some(n@),
                None => None,
            },
        ),
{
    match name {
        Some(n) => n,
        None => String::from_str(path),
    }
}

/// The object key under which the file at `path` is uploaded.
pub fn upload_key(path: &str) -> (key: String)
    ensures
        key@ == upload_key_spec(path@),
{
    let name = file_name(path);
    upload_key_from(path, name)
}

/// A file is uploaded under its file name when its path has one, and under
/// the path as given otherwise.
pub proof fn law_upload_key_is_file_name(path: Seq<char>)
    ensures
        path_file_name(path) matches Some(n) ==> upload_key_spec(path) == n,
        path_file_name(path) is None ==> upload_key_spec(path) == path,
{
}

} // verus!
