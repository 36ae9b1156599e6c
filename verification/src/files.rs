//! The text-file command. The surrounding binary performs the read and
//! hands over its outcome; this module passes the contents through and
//! formats the failure message.

use vstd::prelude::*;
use crate::messages::format_read_file_error;
use crate::messages::read_file_error_message;

verus! {

/// The file command: a successful read is returned unchanged; a failure
/// becomes an error naming the file and the cause.
pub fn read_text_file(path: &str, contents: Result<String, String>) -> (r: Result<String, String>)
    ensures
        contents is Ok ==> r is Ok && r->Ok_0@ == contents->Ok_0@,
        contents is Err ==> r is Err && r->Err_0@ == read_file_error_message(
            path@,
            contents->Err_0@,
        ),
{
    match contents {
        Ok(text) => Ok(text),
        Err(cause) => Err(format_read_file_error(path, cause.as_str())),
    }
}

} // verus!
