use aihorde::response::{failure_outcome, is_success, success_outcome};
use aihorde::{AihordeError, RequestErrorCode, UserActiveGenerations, UtcTimestamp, ValidationError};

#[test]
fn success_range() {
    assert!(is_success(200));
    assert!(is_success(202));
    assert!(is_success(299));
    assert!(!is_success(199));
    assert!(!is_success(300));
    assert!(!is_success(404));
    assert!(!is_success(503));
}

#[test]
fn success_with_expected_shape_gives_the_decoded_value() {
    let v = UserActiveGenerations {
        text: None,
        image: Some(vec!["abc".to_string()]),
        alchemy: Some(vec![]),
    };
    match success_outcome::<UserActiveGenerations>(Ok(v.clone())) {
        Ok(w) => assert_eq!(w, v),
        Err(e) => panic!("unexpected failure {:?}", e),
    }
}

#[test]
fn success_with_other_shape_is_a_malformed_body() {
    let r = success_outcome::<UserActiveGenerations>(Err("invalid type: integer `1`".to_string()));
    match r {
        Err(AihordeError::JsonParseError(m)) => assert_eq!(m, "invalid type: integer `1`"),
        other => panic!("unexpected outcome {:?}", other),
    }
}

#[test]
fn failure_with_envelope_is_an_api_error() {
    let envelope = ValidationError {
        message: Some("bad prompt".to_string()),
        rc: RequestErrorCode::from_wire("MissingPrompt"),
    };
    match failure_outcome(400, r#"{"message": "bad prompt", "rc": "MissingPrompt"}"#.to_string(), Some(envelope)) {
        AihordeError::ApiError { code, message } => {
            assert_eq!(code, RequestErrorCode::MissingPrompt);
            assert_eq!(message.as_deref(), Some("bad prompt"));
        }
        other => panic!("unexpected outcome {:?}", other),
    }
}

#[test]
fn failure_with_envelope_of_new_code_keeps_the_catch_all() {
    let envelope = ValidationError { message: None, rc: RequestErrorCode::from_wire("BrandNewCode") };
    match failure_outcome(403, r#"{"rc": "BrandNewCode"}"#.to_string(), Some(envelope)) {
        AihordeError::ApiError { code, message } => {
            assert_eq!(code, RequestErrorCode::Unknown);
            assert_eq!(message, None);
        }
        other => panic!("unexpected outcome {:?}", other),
    }
}

#[test]
fn failure_with_plain_text_is_opaque() {
    match failure_outcome(503, "Service Unavailable".to_string(), None) {
        AihordeError::UnexpectedHTTPCode { code, message } => {
            assert_eq!(code, 503);
            assert_eq!(message, "Service Unavailable");
        }
        other => panic!("unexpected outcome {:?}", other),
    }
}

#[test]
fn timestamps_keep_nanoseconds_below_a_second() {
    let t = UtcTimestamp::new(1_700_000_000, 999_999_999).unwrap();
    assert_eq!(t.seconds, 1_700_000_000);
    assert_eq!(t.nanos, 999_999_999);
    assert!(UtcTimestamp::new(0, 1_000_000_000).is_none());
}
