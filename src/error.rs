use vstd::prelude::*;

verus! {

/// Why a body could not be read as JSON.
#[derive(Clone, Debug, PartialEq, Eq)]
pub enum JsonFault {
    UnexpectedCharacter { ch: char, line: usize, column: usize },
    UnexpectedEndOfJson,
    ExceededDepthLimit,
    FailedUtf8Parsing,
    WrongType(String),
    /// A fraction with more digits than the parser can take.
    NumberTooLong,
}

/// The errors of a release lookup.
#[derive(Clone, Debug, PartialEq, Eq)]
pub enum AuError {
    /// The request could not be made, or the registry did not answer `200 OK`.
    HttpError(String),
    /// The body is not syntactically valid JSON.
    ParseError(JsonFault),
    /// The body is JSON, but not a release object.
    JsonParseError(String),
}

} // verus!
