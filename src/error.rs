use vstd::prelude::*;

verus! {

/// Every way in which a command can fail.
#[derive(Debug, PartialEq, Eq)]
pub enum Error {
    /// No home directory to place the default configuration under.
    HomeNotFound,
    /// No credential stored yet.
    ConfigNotFound(String),
    /// The stored configuration could not be read as one.
    ConfigParse(String),
    /// Reading or writing a local file failed.
    Io(String),
    /// The request did not reach the server or its answer did not arrive.
    Transport(String),
    /// The server's answer was not a well-formed response.
    ResponseParse(String),
    /// The server answered that the call failed, with its message.
    Api(String),
    /// The image path names no file.
    MissingFileName,
    /// The image file name has no extension to take a content type from.
    MissingExtension,
    /// The content type derived from the extension is not a valid one.
    InvalidContentType(String),
}

} // verus!
