use validated_request::config::{
    AcceptExactly, ErrorHandler, ExtractorConfig, MediaType, RequestContext, Response,
};
use validated_request::error::{Error, PayloadErrorKind};
use validated_request::extract::{extract_form, DecodeUrlEncoded, ValidateRules};
use validated_request::render::{render, respond, DefaultErrorHandler};
use validated_request::report::{FieldErrors, RuleViolation, ValidationReport};
use validator::ValidateUrl;

#[derive(Debug, PartialEq)]
struct FormData {
    page_url: String,
    age: u8,
}

impl DecodeUrlEncoded for FormData {
    fn decode_urlencoded(bytes: &Vec<u8>) -> Result<Self, String> {
        let pairs: Vec<(String, String)> =
            serde_urlencoded::from_bytes(bytes).map_err(|e| e.to_string())?;
        let mut page_url: Option<String> = None;
        let mut age: Option<u8> = None;
        for (key, value) in pairs {
            if key == "page_url" {
                page_url = Some(value);
            } else if key == "age" {
                age = Some(value.parse::<u8>().map_err(|e| e.to_string())?);
            }
        }
        Ok(FormData {
            page_url: page_url.ok_or_else(|| "missing field `page_url`".to_string())?,
            age: age.ok_or_else(|| "missing field `age`".to_string())?,
        })
    }
}

impl ValidateRules for FormData {
    fn validate_rules(&self) -> Result<(), ValidationReport> {
        let mut fields: Vec<FieldErrors> = Vec::new();
        if !self.page_url.validate_url() {
            fields.push(FieldErrors {
                field: "page_url".to_string(),
                errors: vec![RuleViolation {
                    code: "url".to_string(),
                    msg: None,
                }],
            });
        }
        if !(18 <= self.age && self.age <= 28) {
            fields.push(FieldErrors {
                field: "age".to_string(),
                errors: vec![RuleViolation {
                    code: "range".to_string(),
                    msg: None,
                }],
            });
        }
        if fields.is_empty() {
            Ok(())
        } else {
            Err(ValidationReport { fields })
        }
    }
}

struct ConflictHandler;

impl ErrorHandler for ConflictHandler {
    fn handle(&self, _error: Error, _ctx: &RequestContext) -> Response {
        Response {
            status: 409,
            content_type: MediaType::ApplicationJson,
            body: String::new(),
        }
    }
}

fn form_body(page_url: &str, age: u8) -> Vec<u8> {
    serde_urlencoded::to_string([("page_url", page_url.to_string()), ("age", age.to_string())])
        .unwrap()
        .into_bytes()
}

fn ctx() -> RequestContext {
    RequestContext {
        path: "/test".to_string(),
    }
}

#[test]
fn test_form_validation() {
    let config: ExtractorConfig<AcceptExactly, DefaultErrorHandler> = ExtractorConfig::new();

    // A valid form extracts successfully.
    let body = form_body("https://my_page.com", 24);
    let extracted =
        extract_form::<FormData, _, _>(&body, &MediaType::ApplicationFormUrlEncoded, &config);
    assert!(extracted.is_ok());

    // An invalid URL is rejected, and the default rendering is a 400.
    let body = form_body("invalid_url", 24);
    let extracted =
        extract_form::<FormData, _, _>(&body, &MediaType::ApplicationFormUrlEncoded, &config);
    let err = extracted.err().unwrap();
    assert!(matches!(err, Error::Validate(_)));
    let resp = respond(err, &ctx(), &config);
    assert_eq!(resp.status, 400);
}

#[test]
fn test_custom_form_validation_error() {
    // Limit the payload size and install a custom error handler mapping
    // every failure to 409 Conflict.
    let config: ExtractorConfig<AcceptExactly, ConflictHandler> = ExtractorConfig {
        size_limit: 4096,
        content_type_predicate: None,
        error_handler: Some(ConflictHandler),
    };

    let body = form_body("invalid", 24);
    let extracted =
        extract_form::<FormData, _, _>(&body, &MediaType::ApplicationFormUrlEncoded, &config);
    let err = extracted.err().unwrap();
    assert!(matches!(err, Error::Validate(_)));
    let resp = respond(err, &ctx(), &config);
    assert_eq!(resp.status, 409);
}

#[test]
fn test_validated_form_asref_deref() {
    let config: ExtractorConfig<AcceptExactly, DefaultErrorHandler> = ExtractorConfig::new();
    let body = form_body("https://my_page.com", 24);
    let payload =
        extract_form::<FormData, _, _>(&body, &MediaType::ApplicationFormUrlEncoded, &config)
            .ok()
            .unwrap();
    assert_eq!(payload.get().age, 24);
    let reference = FormData {
        page_url: "https://my_page.com".to_owned(),
        age: 24,
    };
    assert_eq!(payload.get(), &reference);
}

#[test]
fn test_validated_form_into_inner() {
    let config: ExtractorConfig<AcceptExactly, DefaultErrorHandler> = ExtractorConfig::new();
    let body = form_body("https://my_page.com", 24);
    let payload =
        extract_form::<FormData, _, _>(&body, &MediaType::ApplicationFormUrlEncoded, &config)
            .ok()
            .unwrap();
    let payload = payload.into_inner();
    assert_eq!(payload.age, 24);
    assert_eq!(payload.page_url, "https://my_page.com");
}

#[test]
fn test_validated_form_limit() {
    let mut config: ExtractorConfig<AcceptExactly, DefaultErrorHandler> = ExtractorConfig::new();
    config.size_limit = 1;
    let body = form_body("https://my_page.com", 24);
    let extracted =
        extract_form::<FormData, _, _>(&body, &MediaType::ApplicationFormUrlEncoded, &config);
    let err = extracted.err().unwrap();
    match &err {
        Error::UrlEncodedError(PayloadErrorKind::Overflow { limit, length }) => {
            assert_eq!(*limit, 1);
            assert_eq!(*length, body.len());
        }
        other => panic!(
            "expected a size-limit transport error, got {:?}",
            render(other).body
        ),
    }
    let resp = respond(err, &ctx(), &config);
    assert_eq!(resp.status, 400);
}

#[test]
fn form_wrong_content_type_is_rejected_first() {
    let config: ExtractorConfig<AcceptExactly, DefaultErrorHandler> = ExtractorConfig::new();
    let body = form_body("https://my_page.com", 24);
    let err = extract_form::<FormData, _, _>(&body, &MediaType::TextPlain, &config)
        .err()
        .unwrap();
    assert!(matches!(
        err,
        Error::UrlEncodedError(PayloadErrorKind::ContentType)
    ));
    let resp = render(&err);
    assert_eq!(resp.status, 400);
    assert!(resp.body.contains("\"status\":\"URL_ENCODED_ERROR\""));
}

#[test]
fn form_malformed_body_is_a_form_transport_error() {
    let config: ExtractorConfig<AcceptExactly, DefaultErrorHandler> = ExtractorConfig::new();
    let body = b"age=not_a_number&page_url=x".to_vec();
    let err = extract_form::<FormData, _, _>(&body, &MediaType::ApplicationFormUrlEncoded, &config)
        .err()
        .unwrap();
    assert!(matches!(
        err,
        Error::UrlEncodedError(PayloadErrorKind::Malformed(_))
    ));
    let resp = render(&err);
    assert_eq!(resp.status, 400);
    assert!(resp.body.contains("\"status\":\"URL_ENCODED_ERROR\""));
}
