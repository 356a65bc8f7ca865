use from_file::format::{extension_format, path_extension, path_format};
use from_file::path::resolve_path;
use from_file::{FileFormat, FromFile, FromFileError};

struct Marker;

impl FromFile for Marker {}

#[test]
fn path_without_scheme_is_kept() {
    assert_eq!(resolve_path("conf/app.yaml").unwrap(), "conf/app.yaml");
    assert_eq!(resolve_path("person.json").unwrap(), "person.json");
    assert_eq!(resolve_path("").unwrap(), "");
}

#[test]
fn scheme_is_dropped() {
    assert_eq!(resolve_path("file:conf/app.yaml").unwrap(), "conf/app.yaml");
    assert_eq!(resolve_path("anything at all:x.json").unwrap(), "x.json");
    assert_eq!(resolve_path(":x.json").unwrap(), "x.json");
    assert_eq!(resolve_path("file:").unwrap(), "");
    assert_eq!(resolve_path(":").unwrap(), "");
}

#[test]
fn two_delimiters_are_refused() {
    assert!(matches!(resolve_path("a:b:c"), Err(FromFileError::InvalidInput)));
    assert!(matches!(resolve_path("::"), Err(FromFileError::InvalidInput)));
    assert!(matches!(resolve_path("file:c:/conf/app.yaml"), Err(FromFileError::InvalidInput)));
    assert!(matches!(resolve_path("a:b:c:d.json"), Err(FromFileError::InvalidInput)));
}

#[test]
fn path_with_wide_characters_is_split_by_character() {
    assert_eq!(resolve_path("schéma:données/été.yaml").unwrap(), "données/été.yaml");
    assert_eq!(path_extension("données/été.yaml"), Some("yaml".to_string()));
    assert_eq!(path_extension("notes.日本語"), Some("日本語".to_string()));
}

#[test]
fn trait_method_resolves_like_the_function() {
    assert_eq!(Marker::get_file_path("file:conf/app.yaml").unwrap(), "conf/app.yaml");
    assert_eq!(Marker::get_file_path("conf/app.yaml").unwrap(), "conf/app.yaml");
    assert!(matches!(Marker::get_file_path("a:b:c"), Err(FromFileError::InvalidInput)));
}

#[test]
fn extension_follows_the_last_dot_of_the_last_segment() {
    assert_eq!(path_extension("person.json"), Some("json".to_string()));
    assert_eq!(path_extension("a/b/person.tar.gz"), Some("gz".to_string()));
    assert_eq!(path_extension("a.d/person"), None);
    assert_eq!(path_extension("person"), None);
    assert_eq!(path_extension(""), None);
    assert_eq!(path_extension("person."), Some(String::new()));
    assert_eq!(path_extension("conf.json/"), None);
    assert_eq!(path_extension("dir/.json"), Some("json".to_string()));
}

#[test]
fn extensions_name_their_formats() {
    assert_eq!(extension_format("json"), Some(FileFormat::Json));
    assert_eq!(extension_format("yml"), Some(FileFormat::Yaml));
    assert_eq!(extension_format("yaml"), Some(FileFormat::Yaml));
    assert_eq!(extension_format("xml"), None);
    assert_eq!(extension_format(""), None);
    assert_eq!(extension_format("jso"), None);
    assert_eq!(extension_format("jsonl"), None);
    assert_eq!(extension_format("yamL"), None);
}

#[test]
fn paths_with_known_endings_have_a_format() {
    assert!(matches!(path_format("person.json"), Ok(FileFormat::Json)));
    assert!(matches!(path_format("conf/app.yml"), Ok(FileFormat::Yaml)));
    assert!(matches!(path_format("conf/app.yaml"), Ok(FileFormat::Yaml)));
    assert!(matches!(path_format("a.yaml/b.c/app.json"), Ok(FileFormat::Json)));
    assert!(matches!(path_format(".json"), Ok(FileFormat::Json)));
}

#[test]
fn other_paths_have_no_format() {
    assert!(matches!(path_format("person.xml"), Err(FromFileError::InvalidExtension)));
    assert!(matches!(path_format("person"), Err(FromFileError::InvalidExtension)));
    assert!(matches!(path_format("json"), Err(FromFileError::InvalidExtension)));
    assert!(matches!(path_format("a.json/person"), Err(FromFileError::InvalidExtension)));
    assert!(matches!(path_format("person.json.bak"), Err(FromFileError::InvalidExtension)));
}

#[test]
fn messages_name_the_kind() {
    assert_eq!(
        FromFileError::InvalidExtension.message(),
        "FromFileError::InvalidExtension"
    );
    assert_eq!(FromFileError::InvalidInput.message(), "FromFileError::InvalidInput");
    assert_eq!(FromFileError::FileRead.message(), "FromFileError::FileRead");
}

#[test]
fn file_open_message_quotes_the_path() {
    let e = FromFileError::FileOpen("/work/conf/app.yaml".to_string());
    assert_eq!(
        e.message(),
        "FromFileError::FileOpen - couldn't open \"/work/conf/app.yaml\""
    );
    let e = FromFileError::FileOpen("a\"b".to_string());
    assert_eq!(e.message(), "FromFileError::FileOpen - couldn't open \"a\\\"b\"");
}

#[test]
fn serde_error_message_holds_the_decoder_text() {
    let e = FromFileError::SerdeError("missing field `name` at line 1 column 13".to_string());
    assert_eq!(
        e.message(),
        "FromFileError::SerdeError - missing field `name` at line 1 column 13"
    );
}
