//! The working directory of the process, as text.
//!
//! The operating system answers the question where the process stands with a
//! path or with an error. Either is turned into text here, so that it can be
//! shown: a path loses what text cannot hold, an error becomes its
//! description.

use vstd::prelude::*;

verus! {

/// A path of the file system. Nothing of what it holds is visible to proofs.
#[verifier::external_type_specification]
#[verifier::external_body]
pub struct ExPathBuf(std::path::PathBuf);

/// The error of an input or output operation. Nothing of what it holds is
/// visible to proofs.
#[verifier::external_type_specification]
#[verifier::external_body]
pub struct ExIoError(std::io::Error);

/// The text that `std::path::Path::to_string_lossy` gives for a path: the
/// path itself where it is valid Unicode, and otherwise the path with each
/// part that is not replaced by U+FFFD.
pub uninterp spec fn lossy_text(path: std::path::PathBuf) -> Seq<char>;

/// Calls `std::path::Path::to_string_lossy` on the path and takes ownership
/// of what it returns. Trusted: the text is the one that the conversion is
/// documented to give, which depends on the path alone.
#[verifier::external_body]
fn path_to_text(path: &std::path::PathBuf) -> (text: String)
    ensures
        text@ == lossy_text(*path),
{
    path.to_string_lossy().into_owned()
}

/// Calls `to_string` on an `std::io::Error`, which formats the error as its
/// `Display` impl does. Nothing is claimed of the text: for an error of the
/// operating system it is the system's own message.
#[verifier::external_body]
fn error_to_text(error: &std::io::Error) -> (text: String) {
    error.to_string()
}

/// Turns the operating system's answer on the working directory into text:
/// a path into its lossy text, an error into its description.
pub fn get_current_dir(lookup: Result<std::path::PathBuf, std::io::Error>) -> (answer: Result<
    String,
    String,
>)
    ensures
        match lookup {
            Ok(path) => answer is Ok && answer->Ok_0@ == lossy_text(path),
            Err(_) => answer is Err,
        },
{
    match lookup {
        Ok(path) => Ok(path_to_text(&path)),
        Err(error) => Err(error_to_text(&error)),
    }
}

} // verus!
