//! Route dispatch and middleware composition, as plain values: which handler
//! a path reaches, in what order the middleware wraps request handling, and
//! which paths the access log leaves out.

use vstd::prelude::*;
use crate::model::{
    app_version_json, health_json, AppVersion, HealthCheck, ProbeOutcome, API_VERSION,
    BUILD_TIMESTAMP, GIT_PRETTY_VERSION,
};
use crate::render::str_eq;

verus! {

/// The handlers a request can be dispatched to.
#[derive(Debug, Clone, Copy, PartialEq, Eq, Structural)]
pub enum Route {
    /// The health endpoint.
    Health,
    /// The version endpoint.
    Version,
    /// The metrics scrape endpoint.
    Metrics,
    /// No registered handler; answered by the uniform path-error boundary.
    NotFound,
}

/// The cross-cutting middleware around route dispatch.
#[derive(Debug, Clone, Copy, PartialEq, Eq, Structural)]
pub enum Middleware {
    /// The CORS policy.
    Cors,
    /// Structured access logging.
    AccessLog,
    /// Metrics-scrape instrumentation.
    MetricsExport,
}

/// Which handler a request path reaches.
pub fn route_for(path: &str) -> (r: Route)
    ensures
        path@ == "/health"@ ==> r == Route::Health,
        path@ == "/version"@ ==> r == Route::Version,
        path@ == "/metrics"@ ==> r == Route::Metrics,
        (path@ != "/health"@ && path@ != "/version"@ && path@ != "/metrics"@) ==> r
            == Route::NotFound,
{
    proof {
        reveal_strlit("/health");
        reveal_strlit("/version");
        reveal_strlit("/metrics");
        assert("/health"@.len() == 7 && "/version"@.len() == 8 && "/metrics"@.len() == 8);
        assert("/version"@[1] == 'v' && "/metrics"@[1] == 'm');
    }
    if str_eq(path, "/health") {
        Route::Health
    } else if str_eq(path, "/version") {
        Route::Version
    } else if str_eq(path, "/metrics") {
        Route::Metrics
    } else {
        Route::NotFound
    }
}

/// The health handler, after the probe: the status and the body the endpoint
/// answers with. Success is the status exactly when the probe found the
/// backend responsive, and the body reports the same outcome.
pub fn health(outcome: ProbeOutcome) -> (r: (u16, String))
    ensures
        r.0 == (if outcome.is_responsive() { 200u16 } else { 503u16 }),
        r.1@ == health_json(
            outcome.is_responsive(),
            outcome.is_responsive(),
            if outcome.is_responsive() { Option::None } else {
                Option::Some(outcome.failure_description())
            },
        ),
{
    let healthcheck = HealthCheck::new(outcome);
    let status = healthcheck.status_code();
    let body = healthcheck.to_json();
    (status, body)
}

/// The version handler: always success, with the version report's body.
pub fn version() -> (r: (u16, String))
    ensures
        r.0 == 200u16,
        r.1@ == app_version_json(API_VERSION@, BUILD_TIMESTAMP@, GIT_PRETTY_VERSION@),
{
    let report = AppVersion::new();
    (200, report.to_json())
}

/// The middleware chain, outermost first: a request flows through the CORS
/// policy, then access logging, then metrics instrumentation, and only then
/// reaches route dispatch; the response flows back in reverse.
pub fn middleware_chain() -> (r: Vec<Middleware>)
    ensures
        r@ == seq![Middleware::Cors, Middleware::AccessLog, Middleware::MetricsExport],
{
    let mut chain: Vec<Middleware> = Vec::new();
    chain.push(Middleware::Cors);
    chain.push(Middleware::AccessLog);
    chain.push(Middleware::MetricsExport);
    proof {
        assert(chain@ =~= seq![Middleware::Cors, Middleware::AccessLog, Middleware::MetricsExport]);
    }
    chain
}

/// Whether the access log leaves a request path out, to keep frequent probe
/// and scrape requests from cluttering the log.
pub fn log_excluded(path: &str) -> (r: bool)
    ensures
        r == (path@ == "/health"@ || path@ == "/metrics"@),
{
    if str_eq(path, "/health") {
        true
    } else {
        str_eq(path, "/metrics")
    }
}

} // verus!
