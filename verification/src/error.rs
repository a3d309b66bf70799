//! The unified error taxonomy: decode failures, validation failures and
//! transport-limit failures, each carrying enough structured detail to
//! render a JSON body without re-inspecting the original request.

use vstd::prelude::*;
use crate::report::ValidationReport;

verus! {

/// A transport-level payload failure, found before any decode attempt.
pub enum PayloadErrorKind {
    /// The body is longer than the configured size limit allows.
    Overflow { limit: usize, length: usize },
    /// The declared media type was rejected by the content-type predicate.
    ContentType,
    /// The body could not be read as the encoding at all; carries the
    /// decode capability's diagnostic.
    Malformed(String),
}

/// A decode failure, tagged with the source it came from and carrying the
/// decode capability's human-readable diagnostic.
pub enum DeserializeErrors {
    DeserializeQuery(String),
    DeserializeJson(String),
    DeserializePath(String),
}

/// Everything the extraction pipeline can fail with.  Created at the point
/// of first failure and consumed immediately by rendering.
pub enum Error {
    /// Semantic validation rejected the decoded value; carries every
    /// field/rule/message triple the validate capability reported.
    Validate(ValidationReport),
    /// The payload could not be decoded into the requested type.
    Deserialize(DeserializeErrors),
    /// A transport failure while reading a JSON body.
    JsonPayloadError(PayloadErrorKind),
    /// A transport failure while reading a URL-encoded form body.
    UrlEncodedError(PayloadErrorKind),
    /// The query string could not be decoded.
    QsError(String),
}

} // verus!
