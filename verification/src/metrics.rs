//! Process-wide metrics: a registry of named integer gauges, registered once
//! at construction, written by the periodic refresh step and read by the
//! scrape endpoint.

use vstd::prelude::*;
use crate::render::{dec_rep_signed, push_dec_signed};

verus! {

/// Metrics update interval in seconds.
pub const METRICS_UPDATE_INTERVAL: u64 = 60;

/// The value a refresh cycle writes into the gauge. The real gauge
/// computation is left to the adopting system; only the scheduling and
/// failure behaviour around it is fixed here.
pub const REFRESHED_GAUGE_VALUE: i64 = 42;

/// An integer gauge: a named metric value that can move in both directions.
/// The name and help text are fixed at registration.
#[derive(Debug, PartialEq, Eq)]
pub struct IntGauge {
    name: String,
    help: String,
    value: i64,
}

impl IntGauge {
    /// The gauge's registered name.
    pub closed spec fn name(&self) -> Seq<char> {
        self.name@
    }

    /// The gauge's registered help text.
    pub closed spec fn help(&self) -> Seq<char> {
        self.help@
    }

    /// The gauge's current value.
    pub closed spec fn value(&self) -> i64 {
        self.value
    }

    /// Registers a gauge under a fixed name, starting at zero.
    pub fn new(name: String, help: String) -> (r: IntGauge)
        ensures
            r.name() == name@,
            r.help() == help@,
            r.value() == 0,
    {
        IntGauge { name, help, value: 0 }
    }

    /// Writes the gauge; its registration never changes.
    pub fn set(&mut self, value: i64)
        ensures
            final(self).name() == old(self).name(),
            final(self).help() == old(self).help(),
            final(self).value() == value,
    {
        self.value = value;
    }

    /// Reads the gauge.
    pub fn get(&self) -> (r: i64)
        ensures
            r == self.value(),
    {
        self.value
    }
}

/// The registry of this process's metrics.
#[derive(Debug, PartialEq, Eq)]
pub struct Metrics {
    pub my_project_metric: IntGauge,
}

/// What the registry's gauge is registered as: fixed at construction, never
/// re-registered.
pub open spec fn registered(m: Metrics) -> bool {
    &&& m.my_project_metric.name() == "my_project_metric"@
    &&& m.my_project_metric.help() == "my_project_metric description"@
}

impl Metrics {
    /// Registers every metric of the process, exactly once.
    pub fn new() -> (r: Metrics)
        ensures
            registered(r),
            r.my_project_metric.value() == 0,
    {
        Metrics {
            my_project_metric: IntGauge::new(
                String::from_str("my_project_metric"),
                String::from_str("my_project_metric description"),
            ),
        }
    }
}

impl Default for Metrics {
    fn default() -> (r: Metrics)
        ensures
            registered(r),
            r.my_project_metric.value() == 0,
    {
        Metrics::new()
    }
}

/// One wake of the metrics refresher, after the outside work is done: the
/// caller reports whether a pooled connection could be acquired. With the
/// database reachable the gauge takes the refreshed value; without it the
/// previous value is retained untouched — a failed cycle changes nothing and
/// never ends the task.
pub fn refresh_cycle(metrics: &mut Metrics, db_available: bool)
    ensures
        db_available ==> final(metrics).my_project_metric.value() == REFRESHED_GAUGE_VALUE,
        !db_available ==> *final(metrics) == *old(metrics),
        final(metrics).my_project_metric.name() == old(metrics).my_project_metric.name(),
        final(metrics).my_project_metric.help() == old(metrics).my_project_metric.help(),
{
    if db_available {
        metrics.my_project_metric.set(REFRESHED_GAUGE_VALUE);
    }
}

/// A gauge's appearance in the text exposition format: a help line, a type
/// line, and the sample line with the current value.
pub open spec fn exposition(name: Seq<char>, help: Seq<char>, value: int) -> Seq<char> {
    "# HELP "@ + name + " "@ + help + "\n# TYPE "@ + name + " gauge\n"@ + name + " "@
        + dec_rep_signed(value) + "\n"@
}

impl Metrics {
    /// The scrape endpoint's body: a snapshot of every registered metric in
    /// the text exposition format.
    pub fn scrape(&self) -> (r: String)
        ensures
            r@ == exposition(
                self.my_project_metric.name(),
                self.my_project_metric.help(),
                self.my_project_metric.value() as int,
            ),
    {
        let mut out = String::from_str("# HELP ");
        out.append(self.my_project_metric.name.as_str());
        out.append(" ");
        out.append(self.my_project_metric.help.as_str());
        out.append("\n# TYPE ");
        out.append(self.my_project_metric.name.as_str());
        out.append(" gauge\n");
        out.append(self.my_project_metric.name.as_str());
        out.append(" ");
        push_dec_signed(&mut out, self.my_project_metric.get());
        out.append("\n");
        proof {
            assert(out@ =~= exposition(
                self.my_project_metric.name(),
                self.my_project_metric.help(),
                self.my_project_metric.value() as int,
            ));
        }
        out
    }
}

} // verus!
