//! The JSON and YAML decoders, and what a load makes of their answer.

use vstd::prelude::*;
use crate::error::FromFileError;
use crate::format::FileFormat;

verus! {

/// `serde_json::Error`, the JSON decoder's error. It is carried from the
/// decoder to the function that renders it, and never looked into.
#[verifier::external_type_specification]
#[verifier::external_body]
pub struct ExJsonError(serde_json::Error);

/// `serde_yaml::Error`, the YAML decoder's error. It is carried from the
/// decoder to the function that renders it, and never looked into.
#[verifier::external_type_specification]
#[verifier::external_body]
pub struct ExYamlError(serde_yaml::Error);

/// Calls `serde_json::from_str`. Whether it succeeds, and with what, rests on
/// the target type's own decoding rule, so nothing is claimed of the result.
#[verifier::external_body]
fn json_from_str<T>(text: &str) -> (r: Result<T, serde_json::Error>) where
    for <'de>T: serde::Deserialize<'de>,
 {
    serde_json::from_str(text)
}

/// Calls `serde_yaml::from_str`. Whether it succeeds, and with what, rests on
/// the target type's own decoding rule, so nothing is claimed of the result.
#[verifier::external_body]
fn yaml_from_str<T>(text: &str) -> (r: Result<T, serde_yaml::Error>) where
    for <'de>T: serde::Deserialize<'de>,
 {
    serde_yaml::from_str(text)
}

/// Renders a `serde_json::Error` through its `Display` impl. The text is the
/// decoder's own and nothing is claimed of it.
#[verifier::external_body]
fn json_error_text(e: &serde_json::Error) -> (text: String) {
    e.to_string()
}

/// Renders a `serde_yaml::Error` through its `Display` impl. The text is the
/// decoder's own and nothing is claimed of it.
#[verifier::external_body]
fn yaml_error_text(e: &serde_yaml::Error) -> (text: String) {
    e.to_string()
}

/// What a load returns for a decoder's answer: the decoded value as it is,
/// or the decoder's message, unchanged, inside `SerdeError`.
pub fn decoded<T>(answer: Result<T, String>) -> (r: Result<T, FromFileError>)
    ensures
        match answer {
            Ok(value) => r == Ok::<T, FromFileError>(value),
            Err(text) => r matches Err(FromFileError::SerdeError(t)) && t@ == text@,
        },
{
    match answer {
        Ok(value) => Ok(value),
        Err(text) => Err(FromFileError::SerdeError(text)),
    }
}

/// Whether `r` is what a load returns for the JSON decoder's answer on
/// `text`: some call of the decoder on `text` gave a value, and `r` is `Ok`
/// of that value, or it gave an error, and `r` is `SerdeError` with the text
/// that the error renders to. Which answer the decoder gives is its own
/// affair and the target type's; this only ties `r` to it.
pub closed spec fn json_decoding<T>(text: Seq<char>, r: Result<T, FromFileError>) -> bool where
    for <'de>T: serde::Deserialize<'de>,
 {
    exists|input: &str, answer: Result<T, serde_json::Error>|
        input@ == text && #[trigger] call_ensures(json_from_str::<T>, (input,), answer)
            && match answer {
            Ok(value) => r == Ok::<T, FromFileError>(value),
            Err(e) => exists|message: String| #[trigger]
                call_ensures(json_error_text, (&e,), message) && (r matches Err(
                    FromFileError::SerdeError(carried),
                ) && carried@ == message@),
        }
}

/// Whether `r` is what a load returns for the YAML decoder's answer on
/// `text`: some call of the decoder on `text` gave a value, and `r` is `Ok`
/// of that value, or it gave an error, and `r` is `SerdeError` with the text
/// that the error renders to.
pub closed spec fn yaml_decoding<T>(text: Seq<char>, r: Result<T, FromFileError>) -> bool where
    for <'de>T: serde::Deserialize<'de>,
 {
    exists|input: &str, answer: Result<T, serde_yaml::Error>|
        input@ == text && #[trigger] call_ensures(yaml_from_str::<T>, (input,), answer)
            && match answer {
            Ok(value) => r == Ok::<T, FromFileError>(value),
            Err(e) => exists|message: String| #[trigger]
                call_ensures(yaml_error_text, (&e,), message) && (r matches Err(
                    FromFileError::SerdeError(carried),
                ) && carried@ == message@),
        }
}

/// Whether `r` is what a load returns for decoding `text` in `format`: the
/// JSON decoder's answer for JSON, the YAML decoder's for YAML.
pub open spec fn decoding<T>(format: FileFormat, text: Seq<char>, r: Result<
    T,
    FromFileError,
>) -> bool where for <'de>T: serde::Deserialize<'de> {
    match format {
        FileFormat::Json => json_decoding(text, r),
        FileFormat::Yaml => yaml_decoding(text, r),
    }
}

/// Decoding fails in one way only: with `SerdeError`.
pub proof fn lemma_decoding_fails_with_serde_error<T>(
    format: FileFormat,
    text: Seq<char>,
    r: Result<T, FromFileError>,
) where for <'de>T: serde::Deserialize<'de>
    requires
        decoding(format, text, r),
    ensures
        r matches Err(e) ==> e is SerdeError,
{
}

/// Decodes a JSON document with `serde_json`: the decoder's value on
/// success, its message inside `SerdeError` on failure.
pub fn decode_json<T>(contents: &str) -> (r: Result<T, FromFileError>) where
    for <'de>T: serde::Deserialize<'de>,

    ensures
        json_decoding(contents@, r),
        r matches Err(e) ==> e is SerdeError,
{
    match json_from_str::<T>(contents) {
        Ok(value) => decoded(Ok(value)),
        Err(e) => decoded(Err(json_error_text(&e))),
    }
}

/// Decodes a YAML document with `serde_yaml`: the decoder's value on
/// success, its message inside `SerdeError` on failure.
pub fn decode_yaml<T>(contents: &str) -> (r: Result<T, FromFileError>) where
    for <'de>T: serde::Deserialize<'de>,

    ensures
        yaml_decoding(contents@, r),
        r matches Err(e) ==> e is SerdeError,
{
    match yaml_from_str::<T>(contents) {
        Ok(value) => decoded(Ok(value)),
        Err(e) => decoded(Err(yaml_error_text(&e))),
    }
}

} // verus!
