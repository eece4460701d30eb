//! The two ways a traversal can fail.

use vstd::prelude::*;
use vstd::string::StringExecFns;

verus! {

/// A directory could not be listed at all.
#[derive(Debug, PartialEq, Eq)]
pub struct DirectoryAccessError {
    /// The directory that was asked for.
    pub path: String,
    /// The system's description of the failure.
    pub reason: String,
}

/// One file could not be read.
#[derive(Debug, PartialEq, Eq)]
pub struct FileReadError {
    /// The file whose read failed.
    pub path: String,
    /// The system's description of the failure.
    pub reason: String,
}

/// What `{:?}` prints for a string: the text between double quotes, with the
/// characters that need it escaped.
pub uninterp spec fn debug_text(text: Seq<char>) -> Seq<char>;

/// The message for a directory that could not be listed.
pub open spec fn directory_error_message(path: Seq<char>, reason: Seq<char>) -> Seq<char> {
    "Error reading directory "@ + path + ": "@ + reason
}

/// The message for a file that could not be read, from its path as `{:?}`
/// prints it.
pub open spec fn file_error_message(quoted_path: Seq<char>, reason: Seq<char>) -> Seq<char> {
    "Error reading file "@ + quoted_path + ": "@ + reason
}

/// Formats `text` with `{:?}`, the `Debug` form of `str` in the standard
/// library. Nothing is proved of the result; it is only given its name,
/// `debug_text`, which is sound because the formatting looks at nothing but
/// the characters of `text`.
#[verifier::external_body]
fn debug_quoted(text: &str) -> (quoted: String)
    ensures
        quoted@ == debug_text(text@),
{
    format!("{:?}", text)
}

/// Puts the message for an unreadable file together from the quoted path and
/// the system's reason.
pub fn file_error_text(quoted_path: &str, reason: &str) -> (text: String)
    ensures
        text@ == file_error_message(quoted_path@, reason@),
{
    String::from_str("Error reading file ").concat(quoted_path).concat(": ").concat(reason)
}

impl DirectoryAccessError {
    /// The message shown to the caller: the directory and the system's reason.
    pub fn message(&self) -> (text: String)
        ensures
            text@ == directory_error_message(self.path@, self.reason@),
    {
        String::from_str("Error reading directory ").concat(self.path.as_str()).concat(
            ": ",
        ).concat(self.reason.as_str())
    }
}

impl FileReadError {
    /// The message shown to the caller: the file's path between quotes and the
    /// system's reason.
    pub fn message(&self) -> (text: String)
        ensures
            text@ == file_error_message(debug_text(self.path@), self.reason@),
    {
        let quoted = debug_quoted(self.path.as_str());
        file_error_text(quoted.as_str(), self.reason.as_str())
    }
}

} // verus!
