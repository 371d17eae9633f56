//! The runtime state model.

use opencontainers::runtime::{RuntimeStatus, State};

const STATE: &str = r#"{
    "ociVersion": "0.2.0",
    "id": "oci-container1",
    "status": "running",
    "pid": 4422,
    "bundle": "/containers/redis",
    "annotations": {
        "myKey": "myValue"
    }
}"#;

#[test]
fn test_runtime_state() {
    let state = State::parse(STATE).expect("Could not deserialize state");

    assert_eq!(state.id, "oci-container1");
    assert_eq!(state.pid, 4422);
    assert_eq!(state.bundle, "/containers/redis");
}

#[test]
fn runtime_state_reads_status_and_annotations() {
    let state = State::parse(STATE).unwrap();
    assert_eq!(state.oci_version, "0.2.0");
    assert_eq!(state.status, RuntimeStatus::Running);
    assert_eq!(
        state.annotations.unwrap(),
        vec![("myKey".to_string(), "myValue".to_string())]
    );
}

#[test]
fn runtime_status_names_round_trip() {
    assert_eq!(RuntimeStatus::parse("creating"), RuntimeStatus::Creating);
    assert_eq!(RuntimeStatus::parse("created"), RuntimeStatus::Created);
    assert_eq!(RuntimeStatus::parse("running"), RuntimeStatus::Running);
    assert_eq!(RuntimeStatus::parse("stopped"), RuntimeStatus::Stopped);
    assert_eq!(
        RuntimeStatus::parse("paused"),
        RuntimeStatus::Other("paused".to_string())
    );
    assert_eq!(RuntimeStatus::Creating.as_str(), "creating");
    assert_eq!(RuntimeStatus::Other("paused".to_string()).as_str(), "paused");
}

#[test]
fn runtime_state_requires_its_fields() {
    assert!(State::parse("{}").is_err());
    assert!(State::parse("{\"ociVersion\":\"0.2.0\",\"id\":\"x\",\"status\":\"running\",\"pid\":1}").is_err());
}
