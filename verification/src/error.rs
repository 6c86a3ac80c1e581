//! The library's error taxonomy: one flat enumeration, returned by every
//! operation that can fail.

use vstd::prelude::*;

verus! {

/// A typed failure of a request build, a transport step, or response
/// materialization.
#[derive(Debug, PartialEq, Eq)]
pub enum ImagePigError {
    /// The underlying transport failed; carries the rendered cause.
    HttpError(String),
    /// A remote-reference image input is not a well-formed absolute URL;
    /// carries the offending string.
    InvalidUrl(String),
    /// A response body that cannot be read as expected: unparseable JSON,
    /// inline image data that is not valid base64, or a failed file write.
    UnexpectedResponse,
    /// Materialization could not produce image bytes.
    MissingData,
    /// An inline-bytes image input is not valid base64 text.
    InvalidInput,
}

} // verus!
