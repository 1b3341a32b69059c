use healthmonitor::client::{
    frame_health_patch, get_url, health_patch_body, info_body, is_own_info, phase_patch_body,
};
use healthmonitor::config::Config;
use healthmonitor::service::{apply_patch, patch_reply, Field, PatchError, PatchRequest};
use healthmonitor::status::{DeploymentPhase, HealthState, Status};

fn json(text: &str) -> serde_json::Value {
    serde_json::from_str(text).unwrap()
}

/// One field of a JSON body: absent, a string, or another value.
fn field(payload: &serde_json::Value, key: &str) -> Field {
    match payload.get(key) {
        None => Field::Absent,
        Some(serde_json::Value::String(text)) => Field::Text(text.clone()),
        Some(_) => Field::NotText,
    }
}

/// Applies a PATCH body given as JSON text.
fn patch_status(status: &mut Status, payload: &serde_json::Value) -> Result<(), PatchError> {
    let request = PatchRequest {
        health: field(payload, "health"),
        phase: field(payload, "phase"),
        message: field(payload, "message"),
    };
    apply_patch(status, &request)
}

#[test]
fn test_status() {
    let status = Status::with_phase(DeploymentPhase::Deploying);
    let (code, body) = status.reply();
    assert_eq!(code, 200);
    let expected = r#"{"state":"healthy","messages":[],"phase":"deploying"}"#;
    assert_eq!(body.as_bytes(), expected.as_bytes());
}

#[test]
fn test_status_unhealthy() {
    let mut status = Status::new();
    status.state = HealthState::Unhealthy;
    let (code, _) = status.reply();
    assert_eq!(code, 503);
}

#[test]
fn test_patch_status() {
    let mut status = Status::new();
    assert_eq!(status.state, HealthState::Healthy);

    let r = patch_status(&mut status, &json(r#"{ "health": "unhealthy" }"#));
    assert_eq!(patch_reply(&r).0, 200);
    assert_eq!(status.state, HealthState::Unhealthy);

    let r = patch_status(&mut status, &json(r#"{ "health": "healthy" }"#));
    assert_eq!(patch_reply(&r).0, 200);
    assert_eq!(status.state, HealthState::Healthy);

    let r = patch_status(&mut status, &json(r#"{ "health": "invalid" }"#));
    assert_eq!(patch_reply(&r).0, 400);
    assert_eq!(status.state, HealthState::Healthy);

    let r = patch_status(&mut status, &json(r#"{ "message": "Test message" }"#));
    assert_eq!(patch_reply(&r).0, 200);
    assert_eq!(status.messages.len(), 1);
    assert!(status.messages.contains(&"Test message".to_string()));
}

#[test]
fn test_info() {
    let body = info_body("healthmonitor", "0.1.0");
    let expected = format!("{{\"name\": \"healthmonitor\", \"version\": \"{}\"}}", "0.1.0");
    assert_eq!(body.as_bytes(), expected.as_bytes());
}

#[test]
fn bogus_health_changes_nothing() {
    let mut status = Status::new();
    status.add_message("before".to_string());
    let r = patch_status(&mut status, &json(r#"{"health":"bogus","message":"m"}"#));
    assert_eq!(r, Err(PatchError::InvalidHealth));
    assert_eq!(patch_reply(&r), (400, "Invalid health state"));
    assert_eq!(status.state, HealthState::Healthy);
    assert_eq!(status.messages, vec!["before".to_string()]);
}

#[test]
fn health_and_message_applied_together() {
    let mut status = Status::new();
    let r = patch_status(&mut status, &json(r#"{"health":"unhealthy","message":"m"}"#));
    assert_eq!(r, Ok(()));
    assert_eq!(patch_reply(&r), (200, "Status updated."));
    assert_eq!(status.state, HealthState::Unhealthy);
    assert_eq!(status.messages, vec!["m".to_string()]);
}

#[test]
fn health_in_upper_case_is_accepted() {
    let mut status = Status::new();
    let r = patch_status(&mut status, &json(r#"{"health":"UNHEALTHY"}"#));
    assert_eq!(r, Ok(()));
    assert_eq!(status.state, HealthState::Unhealthy);
}

#[test]
fn wrong_typed_fields_are_refused_distinctly() {
    let mut status = Status::new();
    let r = patch_status(&mut status, &json(r#"{"health":5}"#));
    assert_eq!(r, Err(PatchError::HealthNotText));
    assert_eq!(patch_reply(&r), (400, "Invalid health state."));
    let r = patch_status(&mut status, &json(r#"{"health":"unhealthy","message":7}"#));
    assert_eq!(r, Err(PatchError::MessageNotText));
    assert_eq!(patch_reply(&r), (400, "Invalid message."));
    assert_eq!(status.state, HealthState::Healthy);
    assert!(status.messages.is_empty());
}

#[test]
fn phase_is_patched_and_validated() {
    let mut status = Status::new();
    let r = patch_status(&mut status, &json(r#"{"phase":"Deploying"}"#));
    assert_eq!(r, Ok(()));
    assert_eq!(status.phase, DeploymentPhase::Deploying);
    let r = patch_status(&mut status, &json(r#"{"phase":"later"}"#));
    assert_eq!(r, Err(PatchError::InvalidPhase));
    assert_eq!(patch_reply(&r), (400, "Invalid deployment phase"));
    let r = patch_status(&mut status, &json(r#"{"phase":true}"#));
    assert_eq!(r, Err(PatchError::PhaseNotText));
    assert_eq!(status.phase, DeploymentPhase::Deploying);
}

#[test]
fn apply_patch_with_plain_fields() {
    let mut status = Status::new();
    let req = PatchRequest {
        health: Field::Absent,
        phase: Field::Absent,
        message: Field::Text("only a message".to_string()),
    };
    assert_eq!(apply_patch(&mut status, &req), Ok(()));
    assert_eq!(status.state, HealthState::Healthy);
    assert_eq!(status.messages, vec!["only a message".to_string()]);
}

#[test]
fn unhealthy_reply_lists_messages() {
    let mut status = Status::new();
    status.set_health(HealthState::Unhealthy, Some("FileCheck: File /x is empty".to_string()));
    let (code, body) = status.reply();
    assert_eq!(code, 503);
    assert_eq!(
        body,
        r#"{"state":"unhealthy","messages":["FileCheck: File /x is empty"],"phase":"online"}"#
    );
}

#[test]
fn client_urls_and_bodies() {
    let config = Config::new();
    assert_eq!(config.server.base_url(), "http://127.0.0.1:8080");
    assert_eq!(get_url(&config.server, "status"), "http://127.0.0.1:8080/status");
    assert_eq!(
        health_patch_body(HealthState::Unhealthy, Some("Apache is not running")),
        r#"{"health":"unhealthy","message":"Apache is not running"}"#
    );
    assert_eq!(
        health_patch_body(HealthState::Healthy, Some("say \"hi\"")),
        r#"{"health":"healthy","message":"say \"hi\""}"#
    );
    assert_eq!(health_patch_body(HealthState::Healthy, None), r#"{"health":"healthy"}"#);
    assert_eq!(frame_health_patch(HealthState::Unhealthy, Some("\"x\"")), r#"{"health":"unhealthy","message":"x"}"#);
    assert_eq!(phase_patch_body(DeploymentPhase::Online), r#"{"phase":"online"}"#);
}

#[test]
fn own_info_is_recognised() {
    let body = info_body("healthmonitor", "1.2.3");
    assert!(is_own_info(&body, "healthmonitor", "1.2.3"));
    assert!(!is_own_info(&body, "healthmonitor", "1.2.4"));
    assert!(!is_own_info("<html></html>", "healthmonitor", "1.2.3"));
}
