use polarizer::health::{liveness_response, readiness_response, HealthState};

#[test]
fn health_state_starts_not_ready_and_follows_set_ready() {
    let state = HealthState::new();
    assert!(!state.is_ready());
    state.set_ready(true);
    assert!(state.is_ready());
    state.set_ready(false);
    assert!(!state.is_ready());
}

#[test]
fn liveness_is_always_ok() {
    let (code, body) = liveness_response("1.2.3");
    assert_eq!(code, 200);
    assert_eq!(body.status, "ok");
    assert_eq!(body.version, "1.2.3");
    assert!(body.ready);
}

#[test]
fn readiness_is_503_until_ready() {
    let (code, body) = readiness_response(false, "0.1.0");
    assert_eq!(code, 503);
    assert_eq!(body.status, "not_ready");
    assert!(!body.ready);
    let (code, body) = readiness_response(true, "0.1.0");
    assert_eq!(code, 200);
    assert_eq!(body.status, "ready");
    assert!(body.ready);
    assert_eq!(body.version, "0.1.0");
}
