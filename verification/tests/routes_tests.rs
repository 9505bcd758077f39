//! Route dispatch, middleware order and access-log exclusions.

use my_project_name::model::ProbeOutcome;
use my_project_name::routes::{
    health, log_excluded, middleware_chain, route_for, version, Middleware, Route,
};

#[test]
fn health_handler_maps_outcome_to_response() {
    let (status, body) = health(ProbeOutcome::Responsive);
    assert_eq!(status, 200);
    assert_eq!(
        body,
        "{\"healthy\":true,\"db_connected\":true,\"description\":null}"
    );

    let (status, body) = health(ProbeOutcome::ConnectionFailed(String::from("down")));
    assert_eq!(status, 503);
    assert_eq!(
        body,
        "{\"healthy\":false,\"db_connected\":false,\"description\":\"down\"}"
    );
}

#[test]
fn version_handler_always_succeeds() {
    let (status, body) = version();
    assert_eq!(status, 200);
    let (again_status, again_body) = version();
    assert_eq!(again_status, 200);
    assert_eq!(body, again_body);
}

#[test]
fn dispatch_by_path() {
    assert_eq!(route_for("/health"), Route::Health);
    assert_eq!(route_for("/version"), Route::Version);
    assert_eq!(route_for("/metrics"), Route::Metrics);
    assert_eq!(route_for("/"), Route::NotFound);
    assert_eq!(route_for("/healthz"), Route::NotFound);
    assert_eq!(route_for(""), Route::NotFound);
}

#[test]
fn middleware_order_is_fixed() {
    let chain = middleware_chain();
    assert_eq!(
        chain,
        vec![
            Middleware::Cors,
            Middleware::AccessLog,
            Middleware::MetricsExport,
        ]
    );
}

#[test]
fn frequent_paths_are_excluded_from_the_log() {
    assert!(log_excluded("/health"));
    assert!(log_excluded("/metrics"));
    assert!(!log_excluded("/version"));
    assert!(!log_excluded("/"));
}
