//! The strings the shell hands back to the UI: the greeting and the
//! formatted error messages of the filesystem commands.

use vstd::prelude::*;

verus! {

/// The greeting returned for a given name.
pub open spec fn greeting_message(name: Seq<char>) -> Seq<char> {
    "Hello, "@ + name + "! You've been greeted from Rust!"@
}

/// The error reported when a file cannot be read as text: it names the
/// path and the underlying cause.
pub open spec fn read_file_error_message(path: Seq<char>, cause: Seq<char>) -> Seq<char> {
    "Failed to read file "@ + path + ": "@ + cause
}

/// The error reported when a directory cannot be listed.
pub open spec fn read_dir_error_message(path: Seq<char>, cause: Seq<char>) -> Seq<char> {
    "Failed to read directory "@ + path + ": "@ + cause
}

/// The confirmation returned after the screenshot directory is set.
pub open spec fn set_path_message(path: Seq<char>) -> Seq<char> {
    "Screenshot path set to: "@ + path
}

pub fn greet(name: &str) -> (r: String)
    ensures
        r@ == greeting_message(name@),
{
    let s = "Hello, ".to_owned();
    let s = s.concat(name);
    s.concat("! You've been greeted from Rust!")
}

pub fn format_read_file_error(path: &str, cause: &str) -> (r: String)
    ensures
        r@ == read_file_error_message(path@, cause@),
{
    let s = "Failed to read file ".to_owned();
    let s = s.concat(path);
    let s = s.concat(": ");
    s.concat(cause)
}

pub fn format_read_dir_error(path: &str, cause: &str) -> (r: String)
    ensures
        r@ == read_dir_error_message(path@, cause@),
{
    let s = "Failed to read directory ".to_owned();
    let s = s.concat(path);
    let s = s.concat(": ");
    s.concat(cause)
}

pub fn format_set_path_message(path: &str) -> (r: String)
    ensures
        r@ == set_path_message(path@),
{
    let s = "Screenshot path set to: ".to_owned();
    s.concat(path)
}

/// A read-file error message always shows the failing path: it stands
/// verbatim right after the fixed prefix.
pub proof fn lemma_read_file_error_shows_path(path: Seq<char>, cause: Seq<char>)
    ensures
        read_file_error_message(path, cause).subrange(
            "Failed to read file "@.len() as int,
            "Failed to read file "@.len() + path.len() as int,
        ) == path,
{
    assert(read_file_error_message(path, cause).subrange(
        "Failed to read file "@.len() as int,
        "Failed to read file "@.len() + path.len() as int,
    ) =~= path);
}

} // verus!
