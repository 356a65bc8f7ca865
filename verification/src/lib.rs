//! Load a typed value from a JSON or YAML document, choosing the decoder by
//! the extension of the file that holds it.
//!
//! The library covers every decision of a load: it resolves an input such as
//! `file:conf/app.yaml` to a path, picks the format from the path's extension,
//! and turns what reading the file gave into a decoded value or a
//! [`FromFileError`]. Reading the file itself is left to the caller, who
//! reports it as a [`FileOutcome`].

pub mod decode;
pub mod error;
pub mod format;
pub mod loader;
pub mod path;

pub use error::FromFileError;
pub use format::FileFormat;
pub use loader::{load_request, FileOutcome, FromFile, LoadRequest};
