use errpile::{ErrPile, JsonVal, MSResponse, MSResponseError, MSResponseErrorInner, error_from_body};

fn s(t: &str) -> String {
    t.to_string()
}

fn obj(pairs: Vec<(&str, JsonVal)>) -> JsonVal {
    JsonVal::Obj(pairs.into_iter().map(|(k, v)| (k.to_string(), v)).collect())
}

#[test]
fn structured_body_becomes_structured_variant() {
    let body = obj(vec![(
        "error",
        obj(vec![
            ("code", JsonVal::Str(s("X"))),
            ("message", JsonVal::Str(s("Y"))),
        ]),
    )]);
    match error_from_body(body) {
        ErrPile::AZ(az) => {
            assert_eq!(az.error.code, "X");
            assert_eq!(az.error.message, "Y");
            assert!(az.error.target.is_none());
            assert!(az.error.details.is_none());
            assert!(az.error.innererror.is_none());
            assert_eq!(az.display_message(), "X - Y");
        }
        other => panic!("expected the structured variant, got {:?}", other),
    }
}

#[test]
fn structured_body_with_all_fields() {
    let body = obj(vec![(
        "error",
        obj(vec![
            ("code", JsonVal::Str(s("TopCode"))),
            ("message", JsonVal::Str(s("top message"))),
            ("target", JsonVal::Str(s("document"))),
            (
                "details",
                JsonVal::Arr(vec![obj(vec![(
                    "error",
                    obj(vec![
                        ("code", JsonVal::Str(s("Inner1"))),
                        ("message", JsonVal::Str(s("first detail"))),
                    ]),
                )])]),
            ),
            (
                "innererror",
                obj(vec![
                    ("code", JsonVal::Str(s("Deep"))),
                    (
                        "innererror",
                        obj(vec![("message", JsonVal::Str(s("deepest")))]),
                    ),
                ]),
            ),
        ]),
    )]);
    match error_from_body(body) {
        ErrPile::AZ(az) => {
            assert_eq!(az.error.code, "TopCode");
            assert_eq!(az.error.target.as_deref(), Some("document"));
            let details = az.error.details.as_ref().unwrap();
            assert_eq!(details.len(), 1);
            assert_eq!(details[0].error.code, "Inner1");
            assert_eq!(details[0].error.message, "first detail");
            let inner = az.error.innererror.as_ref().unwrap();
            assert_eq!(inner.code.as_deref(), Some("Deep"));
            assert!(inner.message.is_none());
            assert_eq!(inner.display_message(), "Deep - ");
            let deepest = inner.innererror.as_ref().unwrap();
            assert!(deepest.code.is_none());
            assert_eq!(deepest.message.as_deref(), Some("deepest"));
            assert_eq!(deepest.display_message(), " - deepest");
        }
        other => panic!("expected the structured variant, got {:?}", other),
    }
}

#[test]
fn null_target_reads_as_absent() {
    let body = obj(vec![(
        "error",
        obj(vec![
            ("code", JsonVal::Str(s("C"))),
            ("message", JsonVal::Str(s("M"))),
            ("target", JsonVal::Null),
        ]),
    )]);
    match error_from_body(body) {
        ErrPile::AZ(az) => assert!(az.error.target.is_none()),
        other => panic!("expected the structured variant, got {:?}", other),
    }
}

#[test]
fn wrongly_typed_code_falls_through_to_opaque() {
    let body = obj(vec![(
        "error",
        obj(vec![
            ("code", JsonVal::Num(s("7"))),
            ("message", JsonVal::Str(s("Y"))),
        ]),
    )]);
    assert!(matches!(error_from_body(body), ErrPile::FromValue(_)));
}

#[test]
fn missing_message_falls_through_to_opaque() {
    let body = obj(vec![("error", obj(vec![("code", JsonVal::Str(s("X")))]))]);
    assert!(matches!(error_from_body(body), ErrPile::FromValue(_)));
}

#[test]
fn unstructured_body_falls_through_to_opaque() {
    let body = obj(vec![("message", JsonVal::Str(s("free form")))]);
    match error_from_body(body) {
        ErrPile::FromValue(v) => assert_eq!(v.extract_error_from_json(), "free form"),
        other => panic!("expected the opaque variant, got {:?}", other),
    }
}

#[test]
fn az_source_chain_walks_inner_errors() {
    let deepest = errpile::AZErrorInner {
        code: None,
        message: Some(s("deep")),
        innererror: None,
    };
    let inner = errpile::AZErrorInner {
        code: Some(s("C")),
        message: None,
        innererror: Some(Box::new(deepest)),
    };
    let az = errpile::AZError {
        error: errpile::AZErrorDetails {
            code: s("K"),
            message: s("M"),
            target: None,
            details: None,
            innererror: Some(inner),
        },
    };
    let details = az.source();
    let first = details.source().unwrap();
    assert_eq!(first.code.as_deref(), Some("C"));
    let second = first.source().unwrap();
    assert_eq!(second.message.as_deref(), Some("deep"));
    assert!(second.source().is_none());
}

fn ms_error(code: &str, message: &str) -> MSResponseError {
    MSResponseError {
        error: MSResponseErrorInner {
            code: code.to_string(),
            inner_error: JsonVal::Null,
            message: message.to_string(),
        },
    }
}

#[test]
fn ms_response_error_wins() {
    let r: MSResponse<u32> = MSResponse { value: Some(7), error: Some(ms_error("oops", "bad")) };
    match r.into_pile_result() {
        Err(ErrPile::MS(m)) => assert_eq!(m.error.code, "oops"),
        other => panic!("expected the Graph-style error, got {:?}", other),
    }
}

#[test]
fn ms_response_value_succeeds() {
    let r: MSResponse<u32> = MSResponse { value: Some(7), error: None };
    assert_eq!(r.into_pile_result().unwrap(), 7);
}

#[test]
fn ms_response_neither_reports_fallback() {
    let r: MSResponse<u32> = MSResponse { value: None, error: None };
    match r.into_pile_result() {
        Err(e) => assert_eq!(
            e.source_str(),
            "Could not parse Ok variant or the Err variant | Response: MSResponse { value: None, error: None }"
        ),
        other => panic!("expected an error, got {:?}", other),
    }
}
