//! The closed set of failures of a load, and their rendering as text.

use vstd::prelude::*;
use vstd::string::*;

verus! {

/// Why a load failed.
#[derive(Debug)]
pub enum FromFileError {
    /// The path has no extension, or one that names no supported format.
    InvalidExtension,
    /// The input holds more than one `:`.
    InvalidInput,
    /// The file could not be opened; carries the path that was attempted.
    FileOpen(String),
    /// The file was opened but its text could not be read.
    FileRead,
    /// The decoder rejected the text; carries the decoder's own message.
    SerdeError(String),
}

/// The text that `Path`'s `Debug` formatting gives for a path: the path in
/// double quotes, with the escapes that std applies.
pub uninterp spec fn path_debug_text(path: Seq<char>) -> Seq<char>;

/// Calls std's `Debug` formatting of `std::path::Path` on `path`. The
/// contract only names the text that comes back.
#[verifier::external_body]
fn path_debug(path: &str) -> (text: String)
    ensures
        text@ == path_debug_text(path@),
{
    format!("{:?}", std::path::Path::new(path))
}

impl FromFileError {
    /// The message of an error, as a sequence of characters.
    pub open spec fn message_text(&self) -> Seq<char> {
        match self {
            FromFileError::InvalidExtension => "FromFileError::InvalidExtension"@,
            FromFileError::InvalidInput => "FromFileError::InvalidInput"@,
            FromFileError::FileOpen(path) => "FromFileError::FileOpen - couldn't open "@
                + path_debug_text(path@),
            FromFileError::FileRead => "FromFileError::FileRead"@,
            FromFileError::SerdeError(text) => "FromFileError::SerdeError - "@ + text@,
        }
    }

    /// Renders the error for a human reader: the name of the kind, followed
    /// for `FileOpen` by the quoted path and for `SerdeError` by the decoder's
    /// message.
    pub fn message(&self) -> (text: String)
        ensures
            text@ == self.message_text(),
    {
        match self {
            FromFileError::InvalidExtension => String::from_str("FromFileError::InvalidExtension"),
            FromFileError::InvalidInput => String::from_str("FromFileError::InvalidInput"),
            FromFileError::FileOpen(path) => {
                let quoted = path_debug(path.as_str());
                String::from_str("FromFileError::FileOpen - couldn't open ").concat(
                    quoted.as_str(),
                )
            },
            FromFileError::FileRead => String::from_str("FromFileError::FileRead"),
            FromFileError::SerdeError(text) => String::from_str(
                "FromFileError::SerdeError - ",
            ).concat(text.as_str()),
        }
    }
}

} // verus!
