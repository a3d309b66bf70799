//! The validated extractor: transport check, then decode, then validate,
//! strictly in that order, yielding either a read-only wrapper around the
//! validated value or a structured error.
//!
//! Decoding and rule evaluation are capabilities the caller supplies by
//! implementing the decode and validate traits; the pipeline around them
//! is specified exactly by `spec_pipeline` and the helper contracts here.

use vstd::prelude::*;
use crate::report::ValidationReport;
use crate::error::{Error, DeserializeErrors, PayloadErrorKind};
use crate::config::{MediaType, MediaTypePredicate, ExtractorConfig};

verus! {

/// Which encoding a decode failure came from.
#[derive(Clone, Copy, Debug, PartialEq, Eq, Structural)]
pub enum DecodeSource {
    Query,
    Json,
    Path,
}

/// The JSON decode capability: turn raw body bytes into a value of the
/// implementing type, or a human-readable diagnostic.
pub trait DecodeJson: Sized {
    fn decode_json(bytes: &Vec<u8>) -> Result<Self, String>;
}

/// The URL-encoded form decode capability.
pub trait DecodeUrlEncoded: Sized {
    fn decode_urlencoded(bytes: &Vec<u8>) -> Result<Self, String>;
}

/// The query-string decode capability.
pub trait DecodeQuery: Sized {
    fn decode_query(query: &str) -> Result<Self, String>;
}

/// The path-segment decode capability.
pub trait DecodePath: Sized {
    fn decode_path(segment: &str) -> Result<Self, String>;
}

/// The validate capability: run every semantic rule against the value and
/// report all violations, per field, in evaluation order.
pub trait ValidateRules {
    fn validate_rules(&self) -> Result<(), ValidationReport>;
}

/// Owns exactly one decoded-and-validated value.  Construction happens
/// only through the extraction pipeline, after validation succeeded; the
/// value is read-only afterwards, until `into_inner` consumes the wrapper.
pub struct ValidatedValue<T> {
    value: T,
}

impl<T> ValidatedValue<T> {
    /// The wrapped value, at the specification level.
    pub closed spec fn inner(&self) -> T {
        self.value
    }

    /// Read-only access to the wrapped value.
    pub fn get(&self) -> (r: &T)
        ensures
            *r == self.inner(),
    {
        &self.value
    }

    /// Consume the wrapper and take ownership of the value.
    pub fn into_inner(self) -> (r: T)
        ensures
            r == self.inner(),
    {
        self.value
    }
}

/// The wrapper the pipeline builds around a value that passed validation.
pub closed spec fn spec_validated<T>(value: T) -> ValidatedValue<T> {
    ValidatedValue { value }
}

/// The wrapper built for a value wraps exactly that value.
pub broadcast proof fn lemma_validated_inner<T>(value: T)
    ensures
        (#[trigger] spec_validated(value)).inner() == value,
{
}

/// The error a decode failure turns into, tagged with its source.
pub open spec fn spec_decode_error(source: DecodeSource, diag: String) -> Error {
    match source {
        DecodeSource::Query => Error::Deserialize(DeserializeErrors::DeserializeQuery(diag)),
        DecodeSource::Json => Error::Deserialize(DeserializeErrors::DeserializeJson(diag)),
        DecodeSource::Path => Error::Deserialize(DeserializeErrors::DeserializePath(diag)),
    }
}

/// The transport-level outcome for a body: the content-type check comes
/// first, the size check second, and only a body that passes both goes on
/// to decoding.
pub open spec fn spec_body_transport(media_ok: bool, body_len: usize, limit: usize) -> Option<
    PayloadErrorKind,
> {
    if !media_ok {
        Some(PayloadErrorKind::ContentType)
    } else if body_len > limit {
        Some((PayloadErrorKind::Overflow { limit, length: body_len }))
    } else {
        None
    }
}

/// The whole pipeline as a function of its three stage outcomes: a
/// transport failure replaces everything, a decode failure replaces
/// validation, and only a decoded value that passed every rule is wrapped.
pub open spec fn spec_pipeline<T>(
    transport: Option<Error>,
    decoded: Result<T, String>,
    source: DecodeSource,
    outcome: Result<(), ValidationReport>,
) -> Result<ValidatedValue<T>, Error> {
    match transport {
        Some(e) => Err(e),
        None => match decoded {
            Err(m) => Err(spec_decode_error(source, m)),
            Ok(v) => match outcome {
                Ok(_) => Ok(spec_validated(v)),
                Err(rep) => Err(Error::Validate(rep)),
            },
        },
    }
}

/// Whether the declared media type is accepted: by the configured
/// predicate if one is installed, else exactly the extractor's own
/// default media type.
pub fn media_accepted<P: MediaTypePredicate, H>(
    config: &ExtractorConfig<P, H>,
    media: &MediaType,
    dflt: MediaType,
) -> (r: bool)
    ensures
        config.content_type_predicate is None ==> r == (*media == dflt),
{
    match &config.content_type_predicate {
        Some(p) => p.accepts(media),
        None => *media == dflt,
    }
}

/// Wrap the decode capability's outcome into the error taxonomy, tagged
/// with its source.
pub fn decode_outcome<T>(decoded: Result<T, String>, source: DecodeSource) -> (r: Result<T, Error>)
    ensures
        decoded matches Ok(v) ==> r == Ok::<T, Error>(v),
        decoded matches Err(m) ==> r == Err::<T, Error>(spec_decode_error(source, m)),
{
    match decoded {
        Ok(v) => Ok(v),
        Err(m) => Err(
            match source {
                DecodeSource::Query => Error::Deserialize(DeserializeErrors::DeserializeQuery(m)),
                DecodeSource::Json => Error::Deserialize(DeserializeErrors::DeserializeJson(m)),
                DecodeSource::Path => Error::Deserialize(DeserializeErrors::DeserializePath(m)),
            },
        ),
    }
}

/// Wrap the strict query-string decode capability's outcome: a decode
/// failure becomes a query error carrying the diagnostic unchanged.
pub fn qs_decode_outcome<T>(decoded: Result<T, String>) -> (r: Result<T, Error>)
    ensures
        decoded matches Ok(v) ==> r == Ok::<T, Error>(v),
        decoded matches Err(m) ==> r == Err::<T, Error>(Error::QsError(m)),
{
    match decoded {
        Ok(v) => Ok(v),
        Err(m) => Err(Error::QsError(m)),
    }
}

/// Wrap the form decode capability's outcome: a body that does not parse
/// as a form is a malformed-body transport error carrying the diagnostic
/// unchanged.
pub fn form_decode_outcome<T>(decoded: Result<T, String>) -> (r: Result<T, Error>)
    ensures
        decoded matches Ok(v) ==> r == Ok::<T, Error>(v),
        decoded matches Err(m) ==> r == Err::<T, Error>(
            Error::UrlEncodedError(PayloadErrorKind::Malformed(m)),
        ),
{
    match decoded {
        Ok(v) => Ok(v),
        Err(m) => Err(Error::UrlEncodedError(PayloadErrorKind::Malformed(m))),
    }
}

/// Gate construction of the wrapper on the validate capability's outcome:
/// a value that passed every rule is wrapped and handed out unchanged; a
/// rule-violation report is surfaced whole, nothing merged or dropped.
/// Kept crate-internal: it is the only way a wrapper comes to exist, so
/// nothing outside the pipeline can pair a value with a fabricated
/// outcome.
pub(crate) fn validation_outcome<T>(value: T, outcome: Result<(), ValidationReport>) -> (r: Result<
    ValidatedValue<T>,
    Error,
>)
    ensures
        outcome is Ok ==> r == Ok::<ValidatedValue<T>, Error>(spec_validated(value)),
        outcome matches Err(rep) ==> r == Err::<ValidatedValue<T>, Error>(Error::Validate(rep)),
{
    match outcome {
        Ok(_) => Ok(ValidatedValue { value }),
        Err(rep) => Err(Error::Validate(rep)),
    }
}

/// Extract a validated value from a JSON request body.
///
/// The stages run strictly in order — content-type check, size check,
/// decode, validate — and the first failure is terminal: a transport
/// failure is reported before any decode attempt, and a decode failure
/// before any validation.
pub fn extract_json<T: DecodeJson + ValidateRules, P: MediaTypePredicate, H>(
    body: &Vec<u8>,
    media: &MediaType,
    config: &ExtractorConfig<P, H>,
) -> (r: Result<ValidatedValue<T>, Error>)
    ensures
        (config.content_type_predicate is None && *media != MediaType::ApplicationJson) ==> r
            == Err::<ValidatedValue<T>, Error>(Error::JsonPayloadError(PayloadErrorKind::ContentType)),
        (config.content_type_predicate is None && *media == MediaType::ApplicationJson && body@.len()
            > config.size_limit) ==> r == Err::<ValidatedValue<T>, Error>(
            Error::JsonPayloadError(
                (PayloadErrorKind::Overflow { limit: config.size_limit, length: body.len() }),
            ),
        ),
        body@.len() > config.size_limit ==> (r matches Err(e) && (e == Error::JsonPayloadError(
            PayloadErrorKind::ContentType,
        ) || e == Error::JsonPayloadError(
            (PayloadErrorKind::Overflow { limit: config.size_limit, length: body.len() }),
        ))),
        r is Ok ==> body@.len() <= config.size_limit,
        (r is Ok && config.content_type_predicate is None) ==> *media == MediaType::ApplicationJson,
        r matches Err(e) ==> (e matches Error::JsonPayloadError(_) || e matches Error::Deserialize(
            DeserializeErrors::DeserializeJson(_),
        ) || e matches Error::Validate(_)),
        (config.content_type_predicate is None && *media == MediaType::ApplicationJson
            && body@.len() <= config.size_limit) ==> (r matches Err(e) ==> (e
            matches Error::Deserialize(DeserializeErrors::DeserializeJson(_))
            || e matches Error::Validate(_))),
        body@.len() <= config.size_limit ==> (r matches Err(Error::JsonPayloadError(k)) ==> k
            is ContentType),
{
    let accepted = media_accepted(config, media, MediaType::ApplicationJson);
    if !accepted {
        return Err(Error::JsonPayloadError(PayloadErrorKind::ContentType));
    }
    if body.len() > config.size_limit {
        return Err(
            Error::JsonPayloadError(
                PayloadErrorKind::Overflow { limit: config.size_limit, length: body.len() },
            ),
        );
    }
    let value = match decode_outcome(T::decode_json(body), DecodeSource::Json) {
        Ok(v) => v,
        Err(e) => {
            return Err(e);
        },
    };
    let outcome = value.validate_rules();
    validation_outcome(value, outcome)
}

/// Extract a validated value from a URL-encoded form body.
///
/// Same staged pipeline as the JSON extractor; every failure, including a
/// body that does not parse as a form, surfaces as a form transport error,
/// matching that encoding's taxonomy.
pub fn extract_form<T: DecodeUrlEncoded + ValidateRules, P: MediaTypePredicate, H>(
    body: &Vec<u8>,
    media: &MediaType,
    config: &ExtractorConfig<P, H>,
) -> (r: Result<ValidatedValue<T>, Error>)
    ensures
        (config.content_type_predicate is None && *media
            != MediaType::ApplicationFormUrlEncoded) ==> r == Err::<ValidatedValue<T>, Error>(
            Error::UrlEncodedError(PayloadErrorKind::ContentType),
        ),
        (config.content_type_predicate is None && *media == MediaType::ApplicationFormUrlEncoded
            && body@.len() > config.size_limit) ==> r == Err::<ValidatedValue<T>, Error>(
            Error::UrlEncodedError(
                (PayloadErrorKind::Overflow { limit: config.size_limit, length: body.len() }),
            ),
        ),
        body@.len() > config.size_limit ==> (r matches Err(e) && (e == Error::UrlEncodedError(
            PayloadErrorKind::ContentType,
        ) || e == Error::UrlEncodedError(
            (PayloadErrorKind::Overflow { limit: config.size_limit, length: body.len() }),
        ))),
        r is Ok ==> body@.len() <= config.size_limit,
        (r is Ok && config.content_type_predicate is None) ==> *media
            == MediaType::ApplicationFormUrlEncoded,
        r matches Err(e) ==> (e matches Error::UrlEncodedError(_) || e matches Error::Validate(_)),
        (config.content_type_predicate is None && *media == MediaType::ApplicationFormUrlEncoded
            && body@.len() <= config.size_limit) ==> (r matches Err(e) ==> (e
            matches Error::UrlEncodedError(PayloadErrorKind::Malformed(_))
            || e matches Error::Validate(_))),
        body@.len() <= config.size_limit ==> (r matches Err(Error::UrlEncodedError(k)) ==> !(k
            is Overflow)),
{
    let accepted = media_accepted(config, media, MediaType::ApplicationFormUrlEncoded);
    if !accepted {
        return Err(Error::UrlEncodedError(PayloadErrorKind::ContentType));
    }
    if body.len() > config.size_limit {
        return Err(
            Error::UrlEncodedError(
                PayloadErrorKind::Overflow { limit: config.size_limit, length: body.len() },
            ),
        );
    }
    let value = match form_decode_outcome(T::decode_urlencoded(body)) {
        Ok(v) => v,
        Err(e) => {
            return Err(e);
        },
    };
    let outcome = value.validate_rules();
    validation_outcome(value, outcome)
}

/// Extract a validated value from a raw query string, decoded by the
/// strict query-string capability.  A query string has no body, so there
/// is no transport stage: decode, then validate.
pub fn extract_qs_query<T: DecodeQuery + ValidateRules>(query: &str) -> (r: Result<
    ValidatedValue<T>,
    Error,
>)
    ensures
        r matches Err(e) ==> (e matches Error::QsError(_) || e matches Error::Validate(_)),
{
    let value = match qs_decode_outcome(T::decode_query(query)) {
        Ok(v) => v,
        Err(e) => {
            return Err(e);
        },
    };
    let outcome = value.validate_rules();
    validation_outcome(value, outcome)
}

/// Extract a validated value from a raw query string, with a decode
/// failure tagged as a query deserialization error.
pub fn extract_query<T: DecodeQuery + ValidateRules>(query: &str) -> (r: Result<
    ValidatedValue<T>,
    Error,
>)
    ensures
        r matches Err(e) ==> (e matches Error::Deserialize(DeserializeErrors::DeserializeQuery(_))
            || e matches Error::Validate(_)),
{
    let value = match decode_outcome(T::decode_query(query), DecodeSource::Query) {
        Ok(v) => v,
        Err(e) => {
            return Err(e);
        },
    };
    let outcome = value.validate_rules();
    validation_outcome(value, outcome)
}

/// Extract a validated value from one path segment.
pub fn extract_path<T: DecodePath + ValidateRules>(segment: &str) -> (r: Result<
    ValidatedValue<T>,
    Error,
>)
    ensures
        r matches Err(e) ==> (e matches Error::Deserialize(DeserializeErrors::DeserializePath(_))
            || e matches Error::Validate(_)),
{
    let value = match decode_outcome(T::decode_path(segment), DecodeSource::Path) {
        Ok(v) => v,
        Err(e) => {
            return Err(e);
        },
    };
    let outcome = value.validate_rules();
    validation_outcome(value, outcome)
}

/// A fully valid input — transport passed, decode succeeded, every rule
/// held — yields the decoded value itself, unchanged, behind the wrapper.
pub proof fn lemma_valid_input_preserved<T>(value: T, source: DecodeSource)
    ensures
        spec_pipeline(
            None::<Error>,
            Ok::<T, String>(value),
            source,
            Ok::<(), ValidationReport>(()),
        ) matches Ok(w) && w.inner() == value,
{
}

/// An input failing exactly one rule on exactly one field yields a
/// validation failure whose report has exactly one field entry with
/// exactly one rule violation.
pub proof fn lemma_single_violation_surfaces<T>(
    value: T,
    source: DecodeSource,
    rep: ValidationReport,
)
    requires
        rep.fields@.len() == 1,
        rep.fields@[0].errors@.len() == 1,
    ensures
        spec_pipeline(
            None::<Error>,
            Ok::<T, String>(value),
            source,
            Err::<(), ValidationReport>(rep),
        ) matches Err(e) && e matches Error::Validate(r2) && r2.fields@.len() == 1
            && r2.fields@[0].errors@.len() == 1,
{
}

/// A multi-field validation failure surfaces whole: the report carries
/// one entry per distinct failing field, no field omitted, no field
/// duplicated, and every entry lists all the rules that field violated.
pub proof fn lemma_all_fields_surface<T>(value: T, source: DecodeSource, rep: ValidationReport)
    requires
        rep.wf(),
    ensures
        spec_pipeline(
            None::<Error>,
            Ok::<T, String>(value),
            source,
            Err::<(), ValidationReport>(rep),
        ) matches Err(e) && e matches Error::Validate(r2) && r2 == rep && r2.wf(),
{
}

/// A payload that cannot be decoded fails with a deserialization error
/// tagged with the correct source, and validation is never consulted: the
/// outcome is the same whatever the validate capability would have said.
pub proof fn lemma_decode_failure_skips_validation<T>(
    diag: String,
    source: DecodeSource,
    o1: Result<(), ValidationReport>,
    o2: Result<(), ValidationReport>,
)
    ensures
        spec_pipeline(None::<Error>, Err::<T, String>(diag), source, o1) == spec_pipeline(
            None::<Error>,
            Err::<T, String>(diag),
            source,
            o2,
        ),
        spec_pipeline(None::<Error>, Err::<T, String>(diag), source, o1) == Err::<
            ValidatedValue<T>,
            Error,
        >(spec_decode_error(source, diag)),
        source == DecodeSource::Json ==> spec_decode_error(source, diag) == Error::Deserialize(
            DeserializeErrors::DeserializeJson(diag),
        ),
        source == DecodeSource::Query ==> spec_decode_error(source, diag) == Error::Deserialize(
            DeserializeErrors::DeserializeQuery(diag),
        ),
        source == DecodeSource::Path ==> spec_decode_error(source, diag) == Error::Deserialize(
            DeserializeErrors::DeserializePath(diag),
        ),
{
}

/// A rejected media type fails with the content-type transport error
/// before anything else is consulted: not the body length, not decode,
/// not validation.
pub proof fn lemma_content_type_short_circuits<T>(
    body_len: usize,
    limit: usize,
    d1: Result<T, String>,
    d2: Result<T, String>,
    source: DecodeSource,
    o1: Result<(), ValidationReport>,
    o2: Result<(), ValidationReport>,
)
    ensures
        spec_body_transport(false, body_len, limit) == Some(PayloadErrorKind::ContentType),
        spec_pipeline(Some(Error::JsonPayloadError(PayloadErrorKind::ContentType)), d1, source, o1)
            == spec_pipeline(
            Some(Error::JsonPayloadError(PayloadErrorKind::ContentType)),
            d2,
            source,
            o2,
        ),
        spec_pipeline(Some(Error::JsonPayloadError(PayloadErrorKind::ContentType)), d1, source, o1)
            == Err::<ValidatedValue<T>, Error>(Error::JsonPayloadError(PayloadErrorKind::ContentType)),
{
}

/// A body over the size limit fails with the size-limit transport error
/// before any decode attempt: the outcome does not depend on what decode
/// or validate would have returned.
pub proof fn lemma_oversize_short_circuits<T>(
    body_len: usize,
    limit: usize,
    d1: Result<T, String>,
    d2: Result<T, String>,
    source: DecodeSource,
    o1: Result<(), ValidationReport>,
    o2: Result<(), ValidationReport>,
)
    requires
        body_len > limit,
    ensures
        spec_body_transport(true, body_len, limit) == Some(
            (PayloadErrorKind::Overflow { limit, length: body_len }),
        ),
        spec_pipeline(
            Some(Error::JsonPayloadError((PayloadErrorKind::Overflow { limit, length: body_len }))),
            d1,
            source,
            o1,
        ) == spec_pipeline(
            Some(Error::JsonPayloadError((PayloadErrorKind::Overflow { limit, length: body_len }))),
            d2,
            source,
            o2,
        ),
        spec_pipeline(
            Some(Error::JsonPayloadError((PayloadErrorKind::Overflow { limit, length: body_len }))),
            d1,
            source,
            o1,
        ) == Err::<ValidatedValue<T>, Error>(
            Error::JsonPayloadError((PayloadErrorKind::Overflow { limit, length: body_len })),
        ),
{
}

} // verus!
