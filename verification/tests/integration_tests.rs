//! End-to-end checks of the health and version paths over plain values: the
//! probe outcome drives the report, the status mapping and the exact body.

use my_project_name::model::{AppVersion, HealthCheck, ProbeOutcome, Response};

#[test]
fn test_healthcheck() {
    let healthcheck = HealthCheck::new(ProbeOutcome::Responsive);
    assert_eq!(healthcheck.status_code(), 200);
    assert_eq!(
        healthcheck,
        HealthCheck {
            healthy: true,
            db_connected: true,
            description: None,
        }
    );
}

#[test]
fn test_version() {
    let version = AppVersion::new();
    let another = AppVersion::new();
    assert_eq!(version, another);
    assert_eq!(version, AppVersion::new());
}

#[test]
fn healthy_body_is_exact() {
    let healthcheck = HealthCheck::new(ProbeOutcome::Responsive);
    assert_eq!(
        healthcheck.to_json(),
        "{\"healthy\":true,\"db_connected\":true,\"description\":null}"
    );
}

#[test]
fn unreachable_pool_body() {
    let healthcheck = HealthCheck::new(ProbeOutcome::ConnectionFailed(String::from(
        "Failed getting db connection: timed out waiting for a free connection",
    )));
    assert_eq!(healthcheck.status_code(), 503);
    assert!(!healthcheck.healthy);
    assert!(!healthcheck.db_connected);
    assert_eq!(
        healthcheck.description.as_deref(),
        Some("Failed getting db connection: timed out waiting for a free connection")
    );
    assert_eq!(
        healthcheck.to_json(),
        "{\"healthy\":false,\"db_connected\":false,\"description\":\"Failed getting db connection: timed out waiting for a free connection\"}"
    );
}

#[test]
fn failed_query_body() {
    let healthcheck = HealthCheck::new(ProbeOutcome::QueryFailed(String::from("backend down")));
    assert_eq!(healthcheck.status_code(), 503);
    assert_eq!(healthcheck.description.as_deref(), Some("backend down"));
}

#[test]
fn version_body_is_byte_identical_across_calls() {
    let first = AppVersion::new().to_json();
    let second = AppVersion::new().to_json();
    assert_eq!(first, second);
    assert_eq!(
        first,
        "{\"api_version\":\"0.1.0\",\"build_timestamp\":\"1970-01-01T00:00:00Z\",\"git_pretty\":\"unknown\"}"
    );
}

#[test]
fn reachable_backend_scenario() {
    // One process lifetime against a responsive backend: the health body is
    // exact, and the version body carries the three non-empty fields.
    let healthcheck = HealthCheck::new(ProbeOutcome::Responsive);
    assert_eq!(healthcheck.status_code(), 200);
    assert_eq!(
        healthcheck.to_json(),
        "{\"healthy\":true,\"db_connected\":true,\"description\":null}"
    );
    let version = AppVersion::new();
    assert!(!version.api_version.is_empty());
    assert!(!version.build_timestamp.is_empty());
    assert!(!version.git_pretty.is_empty());
}

#[test]
fn response_envelope_carries_a_value() {
    let envelope = Response {
        api_version: AppVersion::new().api_version,
        status: 0,
        description: None,
        value: HealthCheck::new(ProbeOutcome::Responsive),
    };
    assert_eq!(envelope.status, 0);
    assert_eq!(envelope.api_version, "0.1.0");
    assert!(envelope.description.is_none());
    assert!(envelope.value.healthy);
}

#[test]
fn version_fields_are_nonempty() {
    let version = AppVersion::new();
    assert!(!version.api_version.is_empty());
    assert!(!version.build_timestamp.is_empty());
    assert!(!version.git_pretty.is_empty());
}
