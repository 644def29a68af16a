use tart_oauth::flow::FlowState;

#[test]
fn new_record_is_blank() {
    let flow = FlowState::new();
    assert_eq!(flow.authorization_code(), None);
    assert!(!flow.server_ready());
    assert!(!flow.shutdown_requested());
    assert!(!flow.server_closed());
}

#[test]
fn record_code_keeps_the_first() {
    let mut flow = FlowState::new();
    assert!(!flow.record_code(String::new()));
    assert_eq!(flow.authorization_code(), None);
    assert!(flow.record_code("one".to_string()));
    assert!(!flow.record_code("two".to_string()));
    assert_eq!(flow.authorization_code(), Some("one".to_string()));
}

#[test]
fn closing_needs_a_shutdown_request() {
    let mut flow = FlowState::new();
    assert!(!flow.mark_closed());
    assert!(!flow.server_closed());
    flow.request_shutdown();
    assert!(flow.shutdown_requested());
    assert!(!flow.server_closed());
    assert!(flow.mark_closed());
    assert!(flow.server_closed());
}

#[test]
fn shutdown_twice_is_shutdown_once() {
    let mut flow = FlowState::new();
    flow.mark_ready();
    flow.request_shutdown();
    flow.request_shutdown();
    assert!(flow.shutdown_requested());
    assert!(!flow.server_closed());
    assert!(flow.mark_closed());
    flow.request_shutdown();
    assert!(flow.mark_closed());
    assert!(flow.server_closed());
    assert!(flow.server_ready());
}

#[test]
fn snapshot_copies_every_field() {
    let mut flow = FlowState::new();
    flow.mark_ready();
    flow.record_code("abc".to_string());
    flow.request_shutdown();
    let copy = flow.snapshot();
    assert_eq!(copy.authorization_code(), Some("abc".to_string()));
    assert!(copy.server_ready());
    assert!(copy.shutdown_requested());
    assert!(!copy.server_closed());
}
