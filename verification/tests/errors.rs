use lambda_operator::error::{
    OperatorError, STATUS_BAD_REQUEST, STATUS_INTERNAL_SERVER_ERROR, STATUS_NOT_FOUND,
};

fn decode_failure() -> serde_json::Error {
    match serde_json::from_str::<serde_json::Value>("{\"x\": ") {
        Ok(value) => panic!("decoded {:?}", value),
        Err(error) => error,
    }
}

#[test]
fn status_constants_are_the_http_codes() {
    assert_eq!(STATUS_NOT_FOUND, 404);
    assert_eq!(STATUS_BAD_REQUEST, 400);
    assert_eq!(STATUS_INTERNAL_SERVER_ERROR, 500);
}

#[test]
fn task_not_found_is_answered_with_404() {
    let failure = OperatorError::TaskNotFound("echo".to_string());
    assert_eq!(failure.status_code(), 404);
    assert_eq!(failure.message(), "echo");
    assert_eq!(failure.to_string(), "Task not found: echo");
    let (status, body) = failure.into_response();
    assert_eq!(status, 404);
    assert_eq!(body.error, "echo");
    assert_eq!(body.details.as_deref(), Some("Task not found: echo"));
}

#[test]
fn invalid_request_is_answered_with_400() {
    let (status, body) = OperatorError::InvalidRequest("no body".to_string()).into_response();
    assert_eq!(status, 400);
    assert_eq!(body.error, "no body");
    assert_eq!(body.details.as_deref(), Some("Invalid request: no body"));
}

#[test]
fn config_error_is_answered_with_500() {
    let (status, body) = OperatorError::ConfigError("Invalid HTTP_PORT".to_string()).into_response();
    assert_eq!(status, 500);
    assert_eq!(body.error, "Invalid HTTP_PORT");
    assert_eq!(body.details.as_deref(), Some("Configuration error: Invalid HTTP_PORT"));
}

#[test]
fn cluster_error_is_answered_with_500_and_its_message() {
    let (status, body) = OperatorError::KubeError("quota exceeded".to_string()).into_response();
    assert_eq!(status, 500);
    assert_eq!(body.error, "quota exceeded");
    assert_eq!(body.details.as_deref(), Some("Kubernetes error: quota exceeded"));
}

#[test]
fn serialization_error_is_answered_with_400_and_its_message() {
    let expected = decode_failure().to_string();
    assert!(!expected.is_empty());
    let failure = OperatorError::SerdeError(decode_failure());
    assert_eq!(failure.status_code(), 400);
    assert_eq!(failure.message(), expected);
    assert_eq!(failure.to_string(), format!("Serialization error: {}", expected));
    let (status, body) = failure.into_response();
    assert_eq!(status, 400);
    assert_eq!(body.error, expected);
    assert_eq!(body.details, Some(format!("Serialization error: {}", expected)));
}

#[test]
fn a_json_error_converts_to_a_serialization_error() {
    let expected = decode_failure().to_string();
    match OperatorError::from(decode_failure()) {
        OperatorError::SerdeError(error) => assert_eq!(error.to_string(), expected),
        other => panic!("expected SerdeError, got {:?}", other),
    }
}

#[test]
fn an_empty_message_leaves_only_the_kind() {
    let failure = OperatorError::TaskNotFound(String::new());
    assert_eq!(failure.message(), "");
    assert_eq!(failure.to_string(), "Task not found: ");
}

#[test]
fn kinds_are_worded_with_a_colon_and_a_space() {
    assert_eq!(OperatorError::KubeError(String::new()).kind(), "Kubernetes error: ");
    assert_eq!(OperatorError::SerdeError(decode_failure()).kind(), "Serialization error: ");
    assert_eq!(OperatorError::TaskNotFound(String::new()).kind(), "Task not found: ");
    assert_eq!(OperatorError::ConfigError(String::new()).kind(), "Configuration error: ");
    assert_eq!(OperatorError::InvalidRequest(String::new()).kind(), "Invalid request: ");
}

#[test]
fn a_reply_is_built_from_the_kind_and_a_given_message() {
    let failure = OperatorError::SerdeError(decode_failure());
    let (status, body) = failure.reply_with("key must be a string".to_string());
    assert_eq!(status, 400);
    assert_eq!(body.error, "key must be a string");
    assert_eq!(body.details.as_deref(), Some("Serialization error: key must be a string"));
}
