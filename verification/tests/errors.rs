use playlie::lastfm::errors::{
    Error, ErrorCode, ErrorResponse, InvalidErrorCode, ParseFailure, TransportFailure,
};
use playlie::lastfm::json::{parse, Json};

const DEFINED: [(u64, ErrorCode); 26] = [
    (2, ErrorCode::InvalidService),
    (3, ErrorCode::InvalidMethod),
    (4, ErrorCode::AuthenticationFailed),
    (5, ErrorCode::InvalidFormat),
    (6, ErrorCode::InvalidParameters),
    (7, ErrorCode::InvalidResource),
    (8, ErrorCode::OperationFailed),
    (9, ErrorCode::InvalidSessionKey),
    (10, ErrorCode::InvalidAPIKey),
    (11, ErrorCode::ServiceOffline),
    (12, ErrorCode::SubscribersOnly),
    (13, ErrorCode::InvalidMethodSignature),
    (14, ErrorCode::UnauthorizedToken),
    (15, ErrorCode::StreamingNotAvailable),
    (16, ErrorCode::ServiceTemporarilyUnavailable),
    (17, ErrorCode::RequiresLogin),
    (18, ErrorCode::TrialExpired),
    (20, ErrorCode::NotEnoughContent),
    (21, ErrorCode::NotEnoughMembers),
    (22, ErrorCode::NotEnoughFans),
    (23, ErrorCode::NotEnoughNeighbours),
    (24, ErrorCode::NoPeakRadio),
    (25, ErrorCode::RadioNotFound),
    (26, ErrorCode::APIKeySuspended),
    (27, ErrorCode::Deprecated),
    (29, ErrorCode::RateLimitExceeded),
];

fn document(text: &str) -> Json {
    parse(text.as_bytes()).unwrap()
}

#[test]
fn deserialize_api_error() {
    let json = document(r#"{"error": 10, "message": "Invalid API Key"}"#);

    let err: ErrorResponse = ErrorResponse::from_json(&json).unwrap();
    assert_eq!(
        err,
        ErrorResponse {
            error: ErrorCode::InvalidAPIKey,
            message: "Invalid API Key".into(),
        },
    );
}

#[test]
fn error_code_try_from() {
    assert_eq!(Err(InvalidErrorCode(255)), ErrorCode::try_from(255));
    assert_eq!(Err(InvalidErrorCode(4294967295)), ErrorCode::try_from(4294967295));
    assert_eq!(Ok(ErrorCode::InvalidFormat), ErrorCode::try_from(5));
}

#[test]
fn every_defined_integer_reads_as_its_code() {
    for (n, code) in DEFINED {
        assert_eq!(ErrorCode::try_from(n), Ok(code));
        assert_eq!(code.code(), n);
    }
}

#[test]
fn every_other_small_integer_is_refused_with_itself() {
    for n in 0u64..1000 {
        if DEFINED.iter().any(|(defined, _)| *defined == n) {
            continue;
        }
        assert_eq!(ErrorCode::try_from(n), Err(InvalidErrorCode(n)));
    }
}

#[test]
fn the_gaps_and_the_edges_name_no_code() {
    for n in [0u64, 1, 19, 28, 30, 255, 4294967295, 4294967296, u64::MAX] {
        assert_eq!(ErrorCode::try_from(n), Err(InvalidErrorCode(n)));
    }
}

#[test]
fn try_into_reads_a_code_too() {
    let code: Result<ErrorCode, InvalidErrorCode> = 29u64.try_into();
    assert_eq!(code, Ok(ErrorCode::RateLimitExceeded));
}

#[test]
fn envelope_with_an_undefined_code_carries_the_integer() {
    let json = document(r#"{"error": 255, "message": "?"}"#);
    assert_eq!(
        ErrorResponse::from_json(&json),
        Err(ParseFailure::InvalidErrorCode(InvalidErrorCode(255)))
    );
    let json = document(r#"{"error": 19, "message": "?"}"#);
    assert_eq!(
        ErrorResponse::from_json(&json),
        Err(ParseFailure::InvalidErrorCode(InvalidErrorCode(19)))
    );
}

#[test]
fn envelope_with_an_undefined_code_and_no_message_reports_the_code() {
    let json = document(r#"{"error": 1}"#);
    assert_eq!(
        ErrorResponse::from_json(&json),
        Err(ParseFailure::InvalidErrorCode(InvalidErrorCode(1)))
    );
}

#[test]
fn envelope_needs_both_fields_of_the_right_kind() {
    for text in [
        r#"{}"#,
        r#"{"message": "no code"}"#,
        r#"{"error": 10}"#,
        r#"{"error": "10", "message": "text for a code"}"#,
        r#"{"error": -10, "message": "negative"}"#,
        r#"{"error": 10.0, "message": "fraction"}"#,
        r#"{"error": 1e1, "message": "exponent"}"#,
        r#"{"error": 18446744073709551616, "message": "too large"}"#,
        r#"{"error": null, "message": "null"}"#,
        r#"{"error": true, "message": "bool"}"#,
        r#"{"error": 10, "message": 10}"#,
        r#"{"error": 10, "message": null}"#,
        r#"[10, "Invalid API Key"]"#,
        r#""error""#,
        r#"10"#,
        r#"null"#,
    ] {
        assert_eq!(ErrorResponse::from_json(&document(text)), Err(ParseFailure::Shape), "{}", text);
    }
}

#[test]
fn envelope_passes_over_other_members() {
    let json = document(
        r#"{"links": [], "message": "Rate limit", "error": 29, "retry": {"after": 3}}"#,
    );
    assert_eq!(
        ErrorResponse::from_json(&json),
        Ok(ErrorResponse { error: ErrorCode::RateLimitExceeded, message: "Rate limit".into() })
    );
}

#[test]
fn envelope_built_by_hand_reads_its_first_member_of_a_name() {
    let json = Json::Object(vec![
        ("error".to_string(), Json::Number(Some(4))),
        ("message".to_string(), Json::Text("first".to_string())),
        ("message".to_string(), Json::Text("second".to_string())),
        ("error".to_string(), Json::Number(Some(5))),
    ]);
    assert_eq!(
        ErrorResponse::from_json(&json),
        Ok(ErrorResponse { error: ErrorCode::AuthenticationFailed, message: "first".into() })
    );
}

#[test]
fn errors_are_made_from_their_parts() {
    assert_eq!(Error::from(ParseFailure::Shape), Error::ParsingError(ParseFailure::Shape));
    assert_eq!(
        Error::from(ParseFailure::InvalidErrorCode(InvalidErrorCode(1))),
        Error::ParsingError(ParseFailure::InvalidErrorCode(InvalidErrorCode(1)))
    );
    assert_eq!(
        Error::from(TransportFailure { message: "connection refused".into() }),
        Error::HTTPError(TransportFailure { message: "connection refused".into() })
    );
}
