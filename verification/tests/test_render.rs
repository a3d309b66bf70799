use validated_request::config::{
    resolve_config, AcceptExactly, ConfigOverrides, ErrorHandler, ExtractorConfig, MediaType,
    RequestContext, DEFAULT_SIZE_LIMIT,
};
use validated_request::error::{DeserializeErrors, Error, PayloadErrorKind};
use validated_request::render::{render, respond, DefaultErrorHandler};
use validated_request::report::{FieldErrors, RuleViolation, ValidationReport};

fn one_field_report() -> ValidationReport {
    ValidationReport {
        fields: vec![FieldErrors {
            field: "page_url".to_string(),
            errors: vec![RuleViolation {
                code: "url".to_string(),
                msg: None,
            }],
        }],
    }
}

#[test]
fn validation_error_body_is_exact() {
    let err = Error::Validate(one_field_report());
    let resp = render(&err);
    assert_eq!(resp.status, 400);
    assert_eq!(resp.content_type, MediaType::ApplicationJson);
    assert_eq!(
        resp.body,
        "{\"error\":{\"code\":400,\"status\":\"VALIDATION_ERROR\",\"fields\":[{\"field\":\"page_url\",\"errors\":[{\"code\":\"url\",\"msg\":null}]}]}}"
    );
}

#[test]
fn validation_error_body_keeps_every_field_and_rule() {
    let err = Error::Validate(ValidationReport {
        fields: vec![
            FieldErrors {
                field: "page_url".to_string(),
                errors: vec![RuleViolation {
                    code: "url".to_string(),
                    msg: Some("not a url".to_string()),
                }],
            },
            FieldErrors {
                field: "age".to_string(),
                errors: vec![
                    RuleViolation {
                        code: "range".to_string(),
                        msg: None,
                    },
                    RuleViolation {
                        code: "parity".to_string(),
                        msg: Some("must be even".to_string()),
                    },
                ],
            },
        ],
    });
    let resp = render(&err);
    assert_eq!(
        resp.body,
        "{\"error\":{\"code\":400,\"status\":\"VALIDATION_ERROR\",\"fields\":[\
         {\"field\":\"page_url\",\"errors\":[{\"code\":\"url\",\"msg\":\"not a url\"}]},\
         {\"field\":\"age\",\"errors\":[{\"code\":\"range\",\"msg\":null},\
         {\"code\":\"parity\",\"msg\":\"must be even\"}]}]}}"
    );
}

#[test]
fn json_deserialize_error_body_is_exact() {
    let err = Error::Deserialize(DeserializeErrors::DeserializeJson(
        "expected value at line 1 column 2".to_string(),
    ));
    let resp = render(&err);
    assert_eq!(
        resp.body,
        "{\"error\":{\"code\":400,\"status\":\"JSON_DESERIALIZE_ERROR\",\"msg\":\"expected value at line 1 column 2\"}}"
    );
}

#[test]
fn query_and_path_deserialize_errors_carry_their_tags() {
    let q = render(&Error::Deserialize(DeserializeErrors::DeserializeQuery(
        "bad query".to_string(),
    )));
    assert!(q.body.contains("\"status\":\"QUERY_DESERIALIZE_ERROR\""));
    let p = render(&Error::Deserialize(DeserializeErrors::DeserializePath(
        "bad segment".to_string(),
    )));
    assert!(p.body.contains("\"status\":\"PATH_DESERIALIZE_ERROR\""));
    let qs = render(&Error::QsError("bad qs".to_string()));
    assert!(qs.body.contains("\"status\":\"QUERY_ERROR\""));
    let ue = render(&Error::UrlEncodedError(PayloadErrorKind::ContentType));
    assert!(ue.body.contains("\"status\":\"URL_ENCODED_ERROR\""));
}

#[test]
fn overflow_body_renders_the_exact_numbers() {
    let err = Error::JsonPayloadError(PayloadErrorKind::Overflow {
        limit: 1,
        length: 43,
    });
    let resp = render(&err);
    assert_eq!(
        resp.body,
        "{\"error\":{\"code\":400,\"status\":\"PAYLOAD_ERROR\",\"msg\":\"payload (43 bytes) is larger than allowed (limit: 1 bytes)\"}}"
    );
    let err = Error::JsonPayloadError(PayloadErrorKind::Overflow {
        limit: 0,
        length: 1000,
    });
    let resp = render(&err);
    assert!(resp
        .body
        .contains("payload (1000 bytes) is larger than allowed (limit: 0 bytes)"));
}

#[test]
fn diagnostics_are_json_escaped() {
    let err = Error::QsError("a \"quoted\" name\\path\nline2\ttab\u{1f}end".to_string());
    let resp = render(&err);
    assert_eq!(
        resp.body,
        "{\"error\":{\"code\":400,\"status\":\"QUERY_ERROR\",\"msg\":\"a \\\"quoted\\\" name\\\\path\\nline2\\ttab\\u001fend\"}}"
    );
}

#[test]
fn field_names_and_messages_are_json_escaped() {
    let err = Error::Validate(ValidationReport {
        fields: vec![FieldErrors {
            field: "we\"ird".to_string(),
            errors: vec![RuleViolation {
                code: "ru\\le".to_string(),
                msg: Some("line\r\nbreak".to_string()),
            }],
        }],
    });
    let resp = render(&err);
    assert_eq!(
        resp.body,
        "{\"error\":{\"code\":400,\"status\":\"VALIDATION_ERROR\",\"fields\":[\
         {\"field\":\"we\\\"ird\",\"errors\":[{\"code\":\"ru\\\\le\",\"msg\":\"line\\r\\nbreak\"}]}]}}"
    );
}

#[test]
fn rendering_twice_is_byte_identical() {
    let make = || {
        Error::Validate(ValidationReport {
            fields: vec![FieldErrors {
                field: "age".to_string(),
                errors: vec![RuleViolation {
                    code: "range".to_string(),
                    msg: Some("18 to 28".to_string()),
                }],
            }],
        })
    };
    let first = render(&make());
    let second = render(&make());
    assert_eq!(first.body, second.body);
    assert_eq!(first.status, second.status);
    assert_eq!(first.content_type, second.content_type);

    let config: ExtractorConfig<AcceptExactly, DefaultErrorHandler> = ExtractorConfig::new();
    let ctx = RequestContext {
        path: "/test".to_string(),
    };
    let r1 = respond(make(), &ctx, &config);
    let r2 = respond(make(), &ctx, &config);
    assert_eq!(r1.body, r2.body);
}

#[test]
fn default_handler_matches_the_default_rendering() {
    let handler = DefaultErrorHandler;
    let ctx = RequestContext {
        path: "/test".to_string(),
    };
    let direct = render(&Error::Validate(one_field_report()));
    let via_handler = handler.handle(Error::Validate(one_field_report()), &ctx);
    assert_eq!(via_handler.status, direct.status);
    assert_eq!(via_handler.content_type, direct.content_type);
    assert_eq!(via_handler.body, direct.body);
}

#[test]
fn config_resolution_most_specific_wins() {
    // The route's limit wins over the application's, which wins over the
    // default; each field falls through independently.
    let route: ConfigOverrides<AcceptExactly, DefaultErrorHandler> = ConfigOverrides {
        size_limit: Some(10),
        content_type_predicate: None,
        error_handler: None,
    };
    let app: ConfigOverrides<AcceptExactly, DefaultErrorHandler> = ConfigOverrides {
        size_limit: Some(99),
        content_type_predicate: Some(AcceptExactly {
            media: MediaType::TextPlain,
        }),
        error_handler: None,
    };
    let resolved = resolve_config(route, app, ExtractorConfig::new());
    assert_eq!(resolved.size_limit, 10);
    let pred = resolved.content_type_predicate.unwrap();
    assert_eq!(pred.media, MediaType::TextPlain);
    assert!(resolved.error_handler.is_none());

    let unset_route: ConfigOverrides<AcceptExactly, DefaultErrorHandler> =
        ConfigOverrides::unset();
    let unset_app: ConfigOverrides<AcceptExactly, DefaultErrorHandler> = ConfigOverrides::unset();
    let resolved = resolve_config(unset_route, unset_app, ExtractorConfig::new());
    assert_eq!(resolved.size_limit, DEFAULT_SIZE_LIMIT);
    assert!(resolved.content_type_predicate.is_none());
    assert!(resolved.error_handler.is_none());
}
