use api::infra::actix::json_error::{json_error_answer, JsonErrorAnswer, JsonPayloadErrorKind};

#[test]
fn wrong_content_type_is_not_acceptable() {
    assert_eq!(
        json_error_answer(JsonPayloadErrorKind::ContentType, "ignored"),
        JsonErrorAnswer {
            status: 406,
            name: String::from("NotAcceptable"),
            message: String::from("Content-Type must be application/json"),
            details: None,
        }
    );
}

#[test]
fn invalid_json_is_a_bad_request_with_details() {
    let a = json_error_answer(JsonPayloadErrorKind::Deserialize, "expected value at line 1 column 1");
    assert_eq!(a.status, 400);
    assert_eq!(a.name, "BadRequest");
    assert_eq!(a.message, "Invalid JSON");
    assert_eq!(a.details, Some(String::from("expected value at line 1 column 1")));
}

#[test]
fn other_payload_errors_are_internal() {
    let a = json_error_answer(JsonPayloadErrorKind::Other, "overflow");
    assert_eq!((a.status, a.name.as_str(), a.details), (500, "InternalServerError", None));
}
