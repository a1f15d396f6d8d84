//! Outcomes of handling a request that are not a redirect.

use vstd::prelude::*;
use crate::pipeline::PipelineError;
use crate::request::ParseError;

verus! {

/// An unexpected failure; the caller sees no detail of it.
#[derive(Clone, Copy, Debug, PartialEq, Eq, Structural)]
pub enum Internal {
    /// Storage failed to deliver the source for a reason other than absence.
    StorageRead,
    /// The pipeline could not produce the derivative.
    Pipeline(PipelineError),
    /// Storage failed to take the derivative.
    StorageWrite,
    /// The base URL and the derivative key could not be joined.
    UrlJoin,
}

/// Why a request did not end in a redirect.
#[derive(Clone, Copy, Debug, PartialEq, Eq, Structural)]
pub enum Error {
    /// The path is not a well-formed resize request.
    Malformed(ParseError),
    /// The resolution is not on the allow-list.
    UnsupportedResolution,
    /// Storage holds no object under the image key.
    NotFound,
    /// Anything else.
    Other(Internal),
}

pub open spec fn parse_error_class(e: ParseError) -> Error {
    match e {
        ParseError::UnsupportedResolution => Error::UnsupportedResolution,
        _ => Error::Malformed(e),
    }
}

impl Error {
    /// Classifies a parse failure: an allow-list refusal stands apart from
    /// every kind of malformed path.
    pub fn from_parse(e: ParseError) -> (r: Error)
        ensures
            r == parse_error_class(e),
    {
        match e {
            ParseError::UnsupportedResolution => Error::UnsupportedResolution,
            _ => Error::Malformed(e),
        }
    }
}

} // verus!
