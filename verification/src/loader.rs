//! The load itself: from an input to the file to read, and from what the
//! read gave to a decoded value.

use vstd::prelude::*;
use crate::decode::{decode_json, decode_yaml, decoding, json_decoding, yaml_decoding};
use crate::error::FromFileError;
use crate::format::{format_by_ending, format_of, lemma_format_by_ending, path_format, FileFormat};
use crate::path::{resolve_path, resolved_path};

verus! {

/// The file that a load has to read, and the format to decode it in.
#[derive(Debug)]
pub struct LoadRequest {
    pub path: String,
    pub format: FileFormat,
}

/// What reading a file gave.
#[derive(Debug)]
pub enum FileOutcome {
    /// The file could not be opened; carries the path that was attempted.
    OpenFailed(String),
    /// The file was opened, but not all of its text could be read.
    ReadFailed,
    /// The whole text of the file.
    Contents(String),
}

/// What a load does with an input before any file is touched: the path and
/// format to read, or the error that ends the load.
pub open spec fn planned(input: Seq<char>) -> Result<(Seq<char>, FileFormat), FromFileError> {
    match resolved_path(input) {
        None => Err(FromFileError::InvalidInput),
        Some(path) => match format_of(path) {
            None => Err(FromFileError::InvalidExtension),
            Some(format) => Ok((path, format)),
        },
    }
}

/// What a load reads is decided by the path that its input names and by that
/// path's ending: an input that names no path is refused as `InvalidInput`; a
/// path that ends in `.json` is read and decoded as JSON, one that ends in
/// `.yml` or `.yaml` as YAML; a path with any other ending is refused as
/// `InvalidExtension`.
pub proof fn lemma_planned_by_ending(input: Seq<char>)
    ensures
        resolved_path(input) is None ==> planned(input) == Err::<(Seq<char>, FileFormat), _>(
            FromFileError::InvalidInput,
        ),
        resolved_path(input) matches Some(path) ==> planned(input) == (match format_by_ending(
            path,
        ) {
            Some(format) => Ok((path, format)),
            None => Err(FromFileError::InvalidExtension),
        }),
{
    if let Some(path) = resolved_path(input) {
        lemma_format_by_ending(path);
    }
}

/// Whether `r` is what a load in `format` returns once reading the file gave
/// `outcome`: a failed open gives `FileOpen` with the attempted path, a failed
/// read gives `FileRead`, and a text gives what decoding it in `format` gives.
pub open spec fn ends_load<T>(format: FileFormat, outcome: FileOutcome, r: Result<T, FromFileError>)
    -> bool where for <'de>T: serde::Deserialize<'de> {
    match outcome {
        FileOutcome::OpenFailed(attempted) => r matches Err(FromFileError::FileOpen(path))
            && path@ == attempted@,
        FileOutcome::ReadFailed => r matches Err(FromFileError::FileRead),
        FileOutcome::Contents(text) => decoding(format, text@, r),
    }
}

/// Decides which file a load reads and how it will be decoded. The input is
/// resolved to a path first, so a malformed input is reported as such
/// whatever its ending; the format is then taken from the path's extension.
/// An error here ends the load before any file is opened.
pub fn load_request(input: &str) -> (r: Result<LoadRequest, FromFileError>)
    ensures
        match r {
            Ok(request) => planned(input@) == Ok::<_, FromFileError>(
                (request.path@, request.format),
            ),
            Err(e) => planned(input@) == Err::<(Seq<char>, FileFormat), _>(e),
        },
{
    match resolve_path(input) {
        Err(_) => Err(FromFileError::InvalidInput),
        Ok(path) => match path_format(path.as_str()) {
            Err(_) => Err(FromFileError::InvalidExtension),
            Ok(format) => Ok(LoadRequest { path, format }),
        },
    }
}

/// A type that can be loaded from a JSON or YAML file. Every method has a
/// body, so an empty `impl` is all that a decodable type needs.
pub trait FromFile: Sized {
    /// Loads the file that `input` names, decoding it by its extension; `read`
    /// is asked for the file's text. A malformed input or an unsupported
    /// extension ends the load before `read` is called; otherwise `read` is
    /// called once, on the resolved path, and the load ends as it answers.
    fn from_file<R: FnOnce(String) -> FileOutcome>(input: &str, read: R) -> (r: Result<
        Self,
        FromFileError,
    >) where for <'de>Self: serde::Deserialize<'de>
        requires
            forall|path: String| call_requires(read, (path,)),
        ensures
            match planned(input@) {
                Err(e) => r == Err::<Self, _>(e),
                Ok((path, format)) => exists|asked: String, outcome: FileOutcome|
                    asked@ == path && #[trigger] call_ensures(read, (asked,), outcome)
                        && ends_load(format, outcome, r),
            },
    {
        match load_request(input) {
            Err(e) => Err(e),
            Ok(request) => {
                let outcome = read(request.path);
                Self::from_file_outcome(request.format, outcome)
            },
        }
    }

    /// Loads the file that `input` names as YAML, whatever its extension;
    /// `read` is asked for the file's text.
    fn from_yml_file<R: FnOnce(String) -> FileOutcome>(input: &str, read: R) -> (r: Result<
        Self,
        FromFileError,
    >) where for <'de>Self: serde::Deserialize<'de>
        requires
            forall|path: String| call_requires(read, (path,)),
        ensures
            match resolved_path(input@) {
                None => r matches Err(FromFileError::InvalidInput),
                Some(path) => exists|asked: String, outcome: FileOutcome|
                    asked@ == path && #[trigger] call_ensures(read, (asked,), outcome)
                        && ends_load(FileFormat::Yaml, outcome, r),
            },
    {
        match Self::get_file_path(input) {
            Err(e) => Err(e),
            Ok(path) => {
                let outcome = read(path);
                Self::from_file_outcome(FileFormat::Yaml, outcome)
            },
        }
    }

    /// Loads the file that `input` names as JSON, whatever its extension;
    /// `read` is asked for the file's text.
    fn from_json_file<R: FnOnce(String) -> FileOutcome>(input: &str, read: R) -> (r: Result<
        Self,
        FromFileError,
    >) where for <'de>Self: serde::Deserialize<'de>
        requires
            forall|path: String| call_requires(read, (path,)),
        ensures
            match resolved_path(input@) {
                None => r matches Err(FromFileError::InvalidInput),
                Some(path) => exists|asked: String, outcome: FileOutcome|
                    asked@ == path && #[trigger] call_ensures(read, (asked,), outcome)
                        && ends_load(FileFormat::Json, outcome, r),
            },
    {
        match Self::get_file_path(input) {
            Err(e) => Err(e),
            Ok(path) => {
                let outcome = read(path);
                Self::from_file_outcome(FileFormat::Json, outcome)
            },
        }
    }

    /// Extracts the path from an input such as `conf/app.yaml` or
    /// `file:conf/app.yaml`.
    fn get_file_path(input: &str) -> (r: Result<String, FromFileError>)
        ensures
            match r {
                Ok(path) => resolved_path(input@) == Some(path@),
                Err(e) => e is InvalidInput && resolved_path(input@) is None,
            },
    {
        resolve_path(input)
    }

    /// Decodes a JSON document: the result is the JSON decoder's answer on
    /// `contents`, its value or, inside `SerdeError`, the message of its error.
    fn from_json_string(contents: String) -> (r: Result<Self, FromFileError>) where
        for <'de>Self: serde::Deserialize<'de>,

        ensures
            json_decoding(contents@, r),
            r matches Err(e) ==> e is SerdeError,
    {
        decode_json::<Self>(contents.as_str())
    }

    /// Decodes a YAML document. The result is the YAML decoder's answer on
    /// `contents`: the value that it decoded, or `SerdeError` with the
    /// message of its error. Which of the two comes back is decided by the
    /// decoder and by this type's own decoding rule.
    fn from_yaml_string(contents: String) -> (r: Result<Self, FromFileError>) where
        for <'de>Self: serde::Deserialize<'de>,

        ensures
            yaml_decoding(contents@, r),
            r matches Err(e) ==> e is SerdeError,
    {
        decode_yaml::<Self>(contents.as_str())
    }

    /// Decodes a document in the given format: JSON text with the JSON
    /// decoder, YAML text with the YAML decoder. The result is that decoder's
    /// answer on `contents`: the value that it decoded, or `SerdeError` with
    /// the message of its error.
    fn from_string(format: FileFormat, contents: String) -> (r: Result<Self, FromFileError>) where
        for <'de>Self: serde::Deserialize<'de>,

        ensures
            decoding(format, contents@, r),
            r matches Err(e) ==> e is SerdeError,
    {
        match format {
            FileFormat::Json => Self::from_json_string(contents),
            FileFormat::Yaml => Self::from_yaml_string(contents),
        }
    }

    /// Ends a load with what reading the file gave. A file that could not be
    /// opened gives `FileOpen` with the attempted path, one that could not be
    /// read gives `FileRead`, and neither reaches a decoder; a text is decoded
    /// in the given format, and fails only with `SerdeError`.
    fn from_file_outcome(format: FileFormat, outcome: FileOutcome) -> (r: Result<
        Self,
        FromFileError,
    >) where for <'de>Self: serde::Deserialize<'de>
        ensures
            ends_load(format, outcome, r),
    {
        match outcome {
            FileOutcome::OpenFailed(attempted) => Err(FromFileError::FileOpen(attempted)),
            FileOutcome::ReadFailed => Err(FromFileError::FileRead),
            FileOutcome::Contents(contents) => Self::from_string(format, contents),
        }
    }
}

} // verus!
