use lambda_web_adapter::{next_event_request, register_decision, register_request, RegisterDecision};

#[test]
fn test_register_request_shape() {
    let req = register_request();
    assert_eq!(req.method, "POST");
    assert_eq!(req.path, "/2020-01-01/extension/register");
    assert_eq!(req.header_name, "Lambda-Extension-Name");
    assert_eq!(req.header_value, "lambda-adapter");
    assert_eq!(req.body, "{ \"events\": [] }");
}

#[test]
fn test_next_event_request_carries_identifier() {
    let req = next_event_request("ext-123".to_string());
    assert_eq!(req.method, "GET");
    assert_eq!(req.path, "/2020-01-01/extension/event/next");
    assert_eq!(req.header_name, "Lambda-Extension-Identifier");
    assert_eq!(req.header_value, "ext-123");
    assert_eq!(req.body, "");
}

#[test]
fn test_register_decision_success_polls() {
    let d = register_decision(200, Some("ext-123".to_string()));
    assert_eq!(d, RegisterDecision::Poll("ext-123".to_string()));
}

#[test]
fn test_register_decision_failure_is_fatal() {
    assert_eq!(register_decision(403, Some("ext-123".to_string())), RegisterDecision::Fatal);
    assert_eq!(register_decision(500, None), RegisterDecision::Fatal);
    // a success status without an identifier is fatal too
    assert_eq!(register_decision(200, None), RegisterDecision::Fatal);
}
