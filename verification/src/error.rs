//! The error type of the library.

use vstd::prelude::*;

verus! {

/// The error type of the library.
///
/// Errors raised by the editor, the file system or the JSON codec reach the
/// library as their messages; `Internal` holds the library's own errors.
#[derive(Debug, PartialEq, Eq)]
pub enum Error {
    /// An error of the file system.
    Io(String),
    /// An error of the JSON codec.
    Json(String),
    /// An error raised by the editor.
    Nvim(String),
    /// An error internal to the plugin.
    Internal(String),
}

/// The text that describes an error: a tag naming its source, then its message.
pub open spec fn error_text(e: Error) -> Seq<char> {
    match e {
        Error::Io(m) => "(std::io): "@ + m@,
        Error::Json(m) => "(serde_json): "@ + m@,
        Error::Nvim(m) => "(nvim_oxi): "@ + m@,
        Error::Internal(m) => "(internal): "@ + m@,
    }
}

impl Error {
    /// An internal error with the given message, as an `Err`.
    pub fn new<T>(message: String) -> (r: Result<T, Error>)
        ensures
            r == Err::<T, Error>(Error::Internal(message)),
    {
        Err(Error::Internal(message))
    }

    /// The text that describes this error: a tag naming its source, then
    /// its message.
    pub fn message(&self) -> (r: String)
        ensures
            r@ == error_text(*self),
    {
        let (tag, m) = match self {
            Error::Io(m) => ("(std::io): ", m),
            Error::Json(m) => ("(serde_json): ", m),
            Error::Nvim(m) => ("(nvim_oxi): ", m),
            Error::Internal(m) => ("(internal): ", m),
        };
        let mut r = String::from_str(tag);
        r.append(m.as_str());
        r
    }
}

} // verus!
