//! Where the source file of a module is looked for.
//!
//! A module named `m` lives in a file `m.rs`. The file is looked for in
//! each search directory in turn, and the first directory that holds it
//! wins.

use vstd::prelude::*;
use vstd::string::StringExecFns;

verus! {

/// The path that `std::path::Path::join` gives when `file` is adjoined to
/// `directory`, as text. It follows the conventions of the platform.
pub uninterp spec fn joined(directory: Seq<char>, file: Seq<char>) -> Seq<char>;

/// Calls `std::path::Path::join`.
///
/// Trusted: the result depends on the two texts alone, so it can go by
/// the name `joined`. Both arguments are Unicode text, and so is the
/// path that is made of them: turning it back into a `String` loses
/// nothing.
#[verifier::external_body]
fn join(directory: &str, file: &str) -> (path: String)
    ensures
        path@ == joined(directory@, file@),
{
    std::path::Path::new(directory).join(file).to_string_lossy().into_owned()
}

/// The name of the file that holds the source of a module.
pub open spec fn file_name(module_name: Seq<char>) -> Seq<char> {
    module_name + ".rs"@
}

/// The path at which search directory `i` would hold a module.
pub open spec fn candidate(
    search_paths: Seq<Seq<char>>,
    module_name: Seq<char>,
    i: int,
) -> Seq<char>
    recommends
        0 <= i < search_paths.len(),
{
    joined(search_paths[i], file_name(module_name))
}

/// Whether `path` is the path at which one of the search directories would
/// hold the module.
pub open spec fn is_candidate(
    search_paths: Seq<Seq<char>>,
    module_name: Seq<char>,
    path: Seq<char>,
) -> bool {
    exists|i: int|
        0 <= i < search_paths.len() && path == #[trigger] candidate(search_paths, module_name, i)
}

/// Whether search directory `i` is the first that holds the module, where
/// `files` are the paths that exist.
pub open spec fn is_first_hit(
    search_paths: Seq<Seq<char>>,
    module_name: Seq<char>,
    files: Set<Seq<char>>,
    i: int,
) -> bool {
    &&& 0 <= i < search_paths.len()
    &&& files.contains(candidate(search_paths, module_name, i))
    &&& forall|j: int|
        0 <= j < i ==> !files.contains(#[trigger] candidate(search_paths, module_name, j))
}

/// Whether no search directory holds the module, where `files` are the
/// paths that exist.
pub open spec fn is_nowhere(
    search_paths: Seq<Seq<char>>,
    module_name: Seq<char>,
    files: Set<Seq<char>>,
) -> bool {
    forall|j: int|
        0 <= j < search_paths.len() ==> !files.contains(
            #[trigger] candidate(search_paths, module_name, j),
        )
}

/// Builds the name of the file that holds the source of a module.
pub fn source_file_name(module_name: &str) -> (name: String)
    ensures
        name@ == file_name(module_name@),
{
    String::from_str(module_name).concat(".rs")
}

/// Builds the path at which search directory `i` would hold a module, if
/// there is such a directory.
pub fn candidate_path(search_paths: &Vec<String>, module_name: &str, i: usize) -> (path: Option<
    String,
>)
    ensures
        i < search_paths.len() ==> path.deep_view() == Some(
            candidate(search_paths.deep_view(), module_name@, i as int),
        ),
        i >= search_paths.len() ==> path is None,
{
    if i < search_paths.len() {
        let file = source_file_name(module_name);
        Some(join(search_paths[i].as_str(), file.as_str()))
    } else {
        None
    }
}

} // verus!
