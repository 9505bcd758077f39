//! Transient value objects carried in responses: the health-check result, the
//! process version report, and the general response envelope.

use vstd::prelude::*;
use crate::render::{bool_rep, bool_str, json_escape, push_json_escaped};
use crate::server_state::{ServerState, DB_CONNECTION_ERROR_PREFIX};
use crate::db::POOL_TIMEOUT_MESSAGE;

verus! {

/// What the API reports as its version.
pub const API_VERSION: &'static str = "0.1.0";

/// When the running binary was produced.
pub const BUILD_TIMESTAMP: &'static str = "1970-01-01T00:00:00Z";

/// The source revision the running binary was built from.
pub const GIT_PRETTY_VERSION: &'static str = "unknown";

/// General API response envelope.
pub struct Response<T> {
    /// API version.
    pub api_version: String,
    /// Response status, 0 for success, anything else an error.
    pub status: i32,
    /// On error, a detailed description.
    pub description: Option<String>,
    /// Response value.
    pub value: T,
}

/// What a liveness probe against the database observed. The probe itself
/// (borrowing a connection, running the trivial query) happens outside the
/// library; only the observed outcome is handed in.
#[derive(Debug, Clone, PartialEq, Eq)]
pub enum ProbeOutcome {
    /// A connection was acquired and the liveness query succeeded.
    Responsive,
    /// No connection could be acquired from the pool.
    ConnectionFailed(String),
    /// A connection was acquired but the liveness query failed.
    QueryFailed(String),
}

impl ProbeOutcome {
    /// Whether the backend answered the liveness query.
    pub open spec fn is_responsive(self) -> bool {
        self is Responsive
    }

    /// The diagnostic description of a failed probe.
    pub open spec fn failure_description(self) -> Seq<char> {
        match self {
            ProbeOutcome::Responsive => Seq::empty(),
            ProbeOutcome::ConnectionFailed(d) => d@,
            ProbeOutcome::QueryFailed(d) => d@,
        }
    }
}

/// The health-check result reported to callers of the health endpoint.
#[derive(Debug, PartialEq, Eq)]
pub struct HealthCheck {
    pub healthy: bool,
    pub db_connected: bool,
    pub description: Option<String>,
}

impl HealthCheck {
    /// Builds the health report from a probe outcome: healthy and connected
    /// with no description exactly when the probe succeeded, otherwise
    /// unhealthy with the failure's description.
    pub fn new(outcome: ProbeOutcome) -> (r: HealthCheck)
        ensures
            r.healthy == outcome.is_responsive(),
            r.db_connected == outcome.is_responsive(),
            outcome.is_responsive() <==> r.description is None,
            !outcome.is_responsive() ==> (r.description matches Some(d)
                && d@ == outcome.failure_description()),
    {
        match outcome {
            ProbeOutcome::Responsive => HealthCheck {
                healthy: true,
                db_connected: true,
                description: None,
            },
            ProbeOutcome::ConnectionFailed(error) => HealthCheck {
                healthy: false,
                db_connected: false,
                description: Some(error),
            },
            ProbeOutcome::QueryFailed(error) => HealthCheck {
                healthy: false,
                db_connected: false,
                description: Some(error),
            },
        }
    }

    /// The on-demand health probe for one request: borrows a connection from
    /// the pool, lets the liveness query's result decide (the query itself
    /// runs on the connection outside the library; only its outcome is handed
    /// in), and always returns the connection — on every path the pool, the
    /// metrics and the configuration end exactly as they began. Healthy
    /// exactly when a connection was free and the query succeeded; otherwise
    /// the report carries the failure's diagnostic.
    pub fn check(state: &mut ServerState, query_responsive: bool, query_diagnostic: String) -> (r:
        HealthCheck)
        ensures
            final(state).db_connection_pool@ == old(state).db_connection_pool@,
            final(state).metrics == old(state).metrics,
            final(state).config == old(state).config,
            r.healthy <==> ((exists|i: int|
                0 <= i < old(state).db_connection_pool@.len()
                    && !old(state).db_connection_pool@[i]) && query_responsive),
            r.db_connected == r.healthy,
            r.healthy <==> r.description is None,
            !(exists|i: int|
                0 <= i < old(state).db_connection_pool@.len()
                    && !old(state).db_connection_pool@[i]) ==> (r.description matches Some(d)
                && d@ == DB_CONNECTION_ERROR_PREFIX@ + POOL_TIMEOUT_MESSAGE@),
            ((exists|i: int|
                0 <= i < old(state).db_connection_pool@.len()
                    && !old(state).db_connection_pool@[i]) && !query_responsive) ==> (
            r.description matches Some(d) && d@ == query_diagnostic@),
    {
        match state.db_connection() {
            Ok(connection) => {
                let outcome = if query_responsive {
                    ProbeOutcome::Responsive
                } else {
                    ProbeOutcome::QueryFailed(query_diagnostic)
                };
                let ghost pool_before = old(state).db_connection_pool@;
                state.return_connection(connection);
                proof {
                    assert(state.db_connection_pool@ =~= pool_before);
                }
                HealthCheck::new(outcome)
            },
            Err(error) => HealthCheck::new(ProbeOutcome::ConnectionFailed(error.error_message)),
        }
    }

    /// The HTTP status the health endpoint answers with: success when the
    /// database is connected, service-unavailable otherwise.
    pub fn status_code(&self) -> (r: u16)
        ensures
            r == (if self.db_connected { 200u16 } else { 503u16 }),
    {
        if self.db_connected {
            200
        } else {
            503
        }
    }
}

/// The JSON body of a health response.
pub open spec fn health_json(
    healthy: bool,
    db_connected: bool,
    description: Option<Seq<char>>,
) -> Seq<char> {
    "{\"healthy\":"@ + bool_rep(healthy) + ",\"db_connected\":"@ + bool_rep(db_connected)
        + ",\"description\":"@ + (match description {
        Option::None => "null"@,
        Option::Some(d) => seq!['"'] + json_escape(d) + seq!['"'],
    }) + "}"@
}

impl HealthCheck {
    /// The description as a character sequence, if any.
    pub open spec fn description_view(&self) -> Option<Seq<char>> {
        match self.description {
            Option::None => Option::None,
            Option::Some(d) => Option::Some(d@),
        }
    }

    /// The JSON body the health endpoint answers with.
    pub fn to_json(&self) -> (r: String)
        ensures
            r@ == health_json(self.healthy, self.db_connected, self.description_view()),
    {
        let mut out = String::from_str("{\"healthy\":");
        out.append(bool_str(self.healthy));
        out.append(",\"db_connected\":");
        out.append(bool_str(self.db_connected));
        out.append(",\"description\":");
        match &self.description {
            None => {
                out.append("null");
            },
            Some(d) => {
                proof {
                    reveal_strlit("\"");
                }
                out.append("\"");
                push_json_escaped(&mut out, d.as_str());
                out.append("\"");
            },
        }
        out.append("}");
        proof {
            assert(out@ =~= health_json(self.healthy, self.db_connected, self.description_view()));
        }
        out
    }
}

/// For every health check against a reachable, responsive database the body
/// is exactly the healthy report with a null description.
pub proof fn lemma_health_body_reachable(hc: HealthCheck)
    requires
        hc.healthy,
        hc.db_connected,
        hc.description is None,
    ensures
        health_json(hc.healthy, hc.db_connected, hc.description_view())
            == "{\"healthy\":true,\"db_connected\":true,\"description\":null}"@,
{
    reveal_strlit("{\"healthy\":");
    reveal_strlit("true");
    reveal_strlit(",\"db_connected\":");
    reveal_strlit(",\"description\":");
    reveal_strlit("null");
    reveal_strlit("}");
    reveal_strlit("{\"healthy\":true,\"db_connected\":true,\"description\":null}");
    assert(health_json(hc.healthy, hc.db_connected, hc.description_view())
        =~= "{\"healthy\":true,\"db_connected\":true,\"description\":null}"@);
}

/// For every health check against an unreachable database the body carries
/// false for both flags and a non-null description: the failure's diagnostic,
/// escaped, between quotes.
pub proof fn lemma_health_body_unreachable(hc: HealthCheck, d: Seq<char>)
    requires
        !hc.healthy,
        !hc.db_connected,
        hc.description_view() == Option::Some(d),
    ensures
        health_json(hc.healthy, hc.db_connected, hc.description_view())
            == "{\"healthy\":false,\"db_connected\":false,\"description\":\""@ + json_escape(d)
            + "\"}"@,
{
    reveal_strlit("{\"healthy\":");
    reveal_strlit("false");
    reveal_strlit(",\"db_connected\":");
    reveal_strlit(",\"description\":");
    reveal_strlit("}");
    reveal_strlit("\"");
    reveal_strlit("{\"healthy\":false,\"db_connected\":false,\"description\":\"");
    reveal_strlit("\"}");
    assert(health_json(hc.healthy, hc.db_connected, hc.description_view())
        =~= "{\"healthy\":false,\"db_connected\":false,\"description\":\""@ + json_escape(d)
        + "\"}"@);
}

/// The process version report, identical for the process lifetime.
#[derive(Debug, PartialEq, Eq)]
pub struct AppVersion {
    pub api_version: String,
    pub build_timestamp: String,
    pub git_pretty: String,
}

impl AppVersion {
    /// Populates the report from the build-time constants.
    pub fn new() -> (r: AppVersion)
        ensures
            r.api_version@ == API_VERSION@,
            r.build_timestamp@ == BUILD_TIMESTAMP@,
            r.git_pretty@ == GIT_PRETTY_VERSION@,
    {
        AppVersion {
            api_version: String::from_str(API_VERSION),
            build_timestamp: String::from_str(BUILD_TIMESTAMP),
            git_pretty: String::from_str(GIT_PRETTY_VERSION),
        }
    }
}

/// The JSON body of a version response.
pub open spec fn app_version_json(
    api_version: Seq<char>,
    build_timestamp: Seq<char>,
    git_pretty: Seq<char>,
) -> Seq<char> {
    "{\"api_version\":\""@ + json_escape(api_version) + "\",\"build_timestamp\":\""@
        + json_escape(build_timestamp) + "\",\"git_pretty\":\""@ + json_escape(git_pretty)
        + "\"}"@
}

impl AppVersion {
    /// The JSON body the version endpoint answers with.
    pub fn to_json(&self) -> (r: String)
        ensures
            r@ == app_version_json(self.api_version@, self.build_timestamp@, self.git_pretty@),
    {
        let mut out = String::from_str("{\"api_version\":\"");
        push_json_escaped(&mut out, self.api_version.as_str());
        out.append("\",\"build_timestamp\":\"");
        push_json_escaped(&mut out, self.build_timestamp.as_str());
        out.append("\",\"git_pretty\":\"");
        push_json_escaped(&mut out, self.git_pretty.as_str());
        out.append("\"}");
        proof {
            assert(out@ =~= app_version_json(
                self.api_version@,
                self.build_timestamp@,
                self.git_pretty@,
            ));
        }
        out
    }
}

/// Version reporting is idempotent: any two reports built from the build-time
/// constants agree field for field, so repeated version calls within one
/// process lifetime answer identically.
pub proof fn lemma_version_idempotent(a: AppVersion, b: AppVersion)
    requires
        a.api_version@ == API_VERSION@,
        a.build_timestamp@ == BUILD_TIMESTAMP@,
        a.git_pretty@ == GIT_PRETTY_VERSION@,
        b.api_version@ == API_VERSION@,
        b.build_timestamp@ == BUILD_TIMESTAMP@,
        b.git_pretty@ == GIT_PRETTY_VERSION@,
    ensures
        a.api_version@ == b.api_version@,
        a.build_timestamp@ == b.build_timestamp@,
        a.git_pretty@ == b.git_pretty@,
        app_version_json(a.api_version@, a.build_timestamp@, a.git_pretty@)
            == app_version_json(b.api_version@, b.build_timestamp@, b.git_pretty@),
{
}

} // verus!
