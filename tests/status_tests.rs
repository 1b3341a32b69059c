use healthmonitor::status::{frame_status_json, DeploymentPhase, HealthState, Status};

#[test]
fn test_health_status_new() {
    let status = Status::new();
    assert_eq!(status.state, HealthState::Healthy);
    assert!(status.messages.is_empty());
    assert_eq!(status.phase, DeploymentPhase::Online);
}

#[test]
fn test_add_message() {
    let mut status = Status::new();
    status.add_message("Test message".to_string());
    assert_eq!(status.messages.len(), 1);
    assert_eq!(status.messages[0], "Test message");
}

#[test]
fn test_to_string() {
    let mut status = Status::new();
    assert_eq!(status.to_string(), "healthy");

    status.add_message("All systems go".to_string());
    assert_eq!(status.to_string(), "healthy: All systems go");

    status.state = HealthState::Unhealthy;
    status.add_message("Houston, we have a problem".to_string());
    assert_eq!(
        status.to_string(),
        "unhealthy: All systems go, Houston, we have a problem"
    );
}

#[test]
fn health_names_read_in_any_case() {
    assert_eq!(HealthState::from_name("HEALTHY"), Some(HealthState::Healthy));
    assert_eq!(HealthState::from_name("UnHealthy"), Some(HealthState::Unhealthy));
    assert_eq!(HealthState::from_name("bogus"), None);
    assert_eq!(HealthState::try_from("Healthy"), Ok(HealthState::Healthy));
    assert_eq!(HealthState::try_from("sick"), Err("Invalid health state"));
}

#[test]
fn phase_names_read_in_any_case() {
    assert_eq!(DeploymentPhase::from_name("DEPLOYING"), Some(DeploymentPhase::Deploying));
    assert_eq!(DeploymentPhase::from_name("online"), Some(DeploymentPhase::Online));
    assert_eq!(DeploymentPhase::try_from("offline"), Err("Invalid deployment phase"));
}

#[test]
fn lowercase_name_needs_lowercase() {
    assert_eq!(HealthState::from_lowercase_name("healthy"), Some(HealthState::Healthy));
    assert_eq!(HealthState::from_lowercase_name("Healthy"), None);
    assert_eq!(DeploymentPhase::from_lowercase_name("Online"), None);
}

#[test]
fn status_codes_of_states() {
    assert_eq!(HealthState::Healthy.status_code(), 200);
    assert_eq!(HealthState::Unhealthy.status_code(), 503);
}

#[test]
fn set_health_keeps_earlier_messages() {
    let mut status = Status::new();
    status.set_health(HealthState::Unhealthy, Some("down".to_string()));
    status.set_health(HealthState::Healthy, None);
    assert_eq!(status.state, HealthState::Healthy);
    assert_eq!(status.messages, vec!["down".to_string()]);
}

#[test]
fn set_phase_leaves_state_and_messages() {
    let mut status = Status::with_phase(DeploymentPhase::Deploying);
    status.add_message("m".to_string());
    status.set_phase(DeploymentPhase::Online);
    assert_eq!(status.phase, DeploymentPhase::Online);
    assert_eq!(status.state, HealthState::Healthy);
    assert_eq!(status.messages.len(), 1);
}

#[test]
fn json_of_fresh_status() {
    let status = Status::new();
    assert_eq!(status.to_json(), r#"{"state":"healthy","messages":[],"phase":"online"}"#);
}

#[test]
fn json_escapes_messages() {
    let mut status = Status::with_phase(DeploymentPhase::Deploying);
    status.state = HealthState::Unhealthy;
    status.add_message("a \"quoted\" word".to_string());
    status.add_message("line\nbreak".to_string());
    assert_eq!(
        status.to_json(),
        r#"{"state":"unhealthy","messages":["a \"quoted\" word","line\nbreak"],"phase":"deploying"}"#
    );
}

#[test]
fn status_json_frames_given_literals() {
    let literals = vec!["\"a\"".to_string(), "\"b\\\"c\"".to_string()];
    assert_eq!(
        frame_status_json(HealthState::Unhealthy, &literals, DeploymentPhase::Online),
        r#"{"state":"unhealthy","messages":["a","b\"c"],"phase":"online"}"#
    );
    assert_eq!(
        frame_status_json(HealthState::Healthy, &vec![], DeploymentPhase::Deploying),
        r#"{"state":"healthy","messages":[],"phase":"deploying"}"#
    );
}

#[test]
fn json_escapes_control_characters() {
    let mut status = Status::new();
    status.add_message("tab\there\u{1}\u{1f}\u{8}\u{c}\r\\ \u{7f} \u{e9}".to_string());
    assert_eq!(
        status.to_json(),
        "{\"state\":\"healthy\",\"messages\":[\"tab\\there\\u0001\\u001f\\b\\f\\r\\\\ \u{7f} \u{e9}\"],\"phase\":\"online\"}"
    );
}
