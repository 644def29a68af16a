use tart_oauth::callback::{
    answer_request, handle_callback, listener_step, ContentType, ListenerStep, CONFIRMATION_PAGE,
};
use tart_oauth::flow::FlowState;

#[test]
fn wrong_state_gets_401_and_changes_nothing() {
    let mut flow = FlowState::new();
    let response = handle_callback(
        &mut flow,
        &"12345".to_string(),
        Some("54321".to_string()),
        Some("abc".to_string()),
    );
    assert_eq!(response.status_code, 401);
    assert_eq!(response.body, "Invalid state!");
    assert_eq!(response.content_type, ContentType::Text);
    assert_eq!(flow.authorization_code(), None);
}

#[test]
fn missing_state_gets_401() {
    let mut flow = FlowState::new();
    let response = handle_callback(&mut flow, &"12345".to_string(), None, Some("abc".to_string()));
    assert_eq!(response.status_code, 401);
    assert_eq!(response.body, "Invalid state!");
    assert_eq!(flow.authorization_code(), None);
}

#[test]
fn missing_code_gets_400_and_changes_nothing() {
    let mut flow = FlowState::new();
    let response = handle_callback(&mut flow, &"12345".to_string(), Some("12345".to_string()), None);
    assert_eq!(response.status_code, 400);
    assert_eq!(response.body, "must provide code");
    assert_eq!(response.content_type, ContentType::Text);
    assert_eq!(flow.authorization_code(), None);
}

#[test]
fn first_valid_code_is_stored_and_second_does_not_overwrite() {
    let mut flow = FlowState::new();
    let expected = "12345".to_string();
    let first = handle_callback(
        &mut flow,
        &expected,
        Some("12345".to_string()),
        Some("first".to_string()),
    );
    assert_eq!(first.status_code, 200);
    assert_eq!(first.content_type, ContentType::Html);
    assert_eq!(first.body, CONFIRMATION_PAGE);
    assert_eq!(flow.authorization_code(), Some("first".to_string()));
    let second = handle_callback(
        &mut flow,
        &expected,
        Some("12345".to_string()),
        Some("second".to_string()),
    );
    assert_eq!(second.status_code, 200);
    assert_eq!(flow.authorization_code(), Some("first".to_string()));
}

#[test]
fn empty_code_is_answered_but_not_stored() {
    let mut flow = FlowState::new();
    let expected = "7".to_string();
    let response =
        handle_callback(&mut flow, &expected, Some("7".to_string()), Some(String::new()));
    assert_eq!(response.status_code, 200);
    assert_eq!(flow.authorization_code(), None);
}

#[test]
fn confirmation_page_text() {
    assert!(CONFIRMATION_PAGE.starts_with("<!DOCTYPE html>\n<html lang=\"en\">\n<head>\n"));
    assert!(CONFIRMATION_PAGE.contains("<title>TART OAuth</title>"));
    assert!(CONFIRMATION_PAGE
        .ends_with("You may now close this page.\n</body>\n</html>"));
}

#[test]
fn request_parameters_are_read_and_decoded() {
    let mut flow = FlowState::new();
    let expected = "99".to_string();
    let request = rouille::Request::fake_http("GET", "/cb?state=99&code=a%2Fb+c", vec![], vec![]);
    let response = answer_request(&mut flow, &expected, &request);
    assert_eq!(response.status_code, 200);
    assert_eq!(flow.authorization_code(), Some("a/b c".to_string()));
}

#[test]
fn request_with_other_state_is_rejected() {
    let mut flow = FlowState::new();
    let expected = "99".to_string();
    let request = rouille::Request::fake_http("GET", "/?state=98&code=abc", vec![], vec![]);
    let response = answer_request(&mut flow, &expected, &request);
    assert_eq!(response.status_code, 401);
    assert_eq!(flow.authorization_code(), None);
    let request = rouille::Request::fake_http("GET", "/?code=abc", vec![], vec![]);
    assert_eq!(answer_request(&mut flow, &expected, &request).status_code, 401);
}

#[test]
fn request_without_code_is_rejected() {
    let mut flow = FlowState::new();
    let expected = "99".to_string();
    let request = rouille::Request::fake_http("GET", "/?state=99", vec![], vec![]);
    let response = answer_request(&mut flow, &expected, &request);
    assert_eq!(response.status_code, 400);
    assert_eq!(response.body, "must provide code");
    assert_eq!(flow.authorization_code(), None);
}

#[test]
fn listener_serves_until_shutdown_is_requested() {
    let mut flow = FlowState::new();
    flow.mark_ready();
    assert_eq!(listener_step(&mut flow), ListenerStep::Serve);
    assert!(!flow.server_closed());
    flow.request_shutdown();
    assert_eq!(listener_step(&mut flow), ListenerStep::Stop);
    assert!(flow.server_closed());
    assert_eq!(listener_step(&mut flow), ListenerStep::Stop);
}
