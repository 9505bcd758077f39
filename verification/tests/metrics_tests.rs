//! The metrics registry, the periodic refresh step, and the scrape body.

use my_project_name::metrics::{refresh_cycle, IntGauge, Metrics, METRICS_UPDATE_INTERVAL};

#[test]
fn refresh_writes_gauge_when_database_reachable() {
    let mut metrics = Metrics::new();
    assert_eq!(metrics.my_project_metric.get(), 0);
    refresh_cycle(&mut metrics, true);
    assert_eq!(metrics.my_project_metric.get(), 42);
}

#[test]
fn failed_refresh_retains_previous_value() {
    let mut metrics = Metrics::new();
    refresh_cycle(&mut metrics, true);
    assert_eq!(metrics.my_project_metric.get(), 42);
    refresh_cycle(&mut metrics, false);
    assert_eq!(metrics.my_project_metric.get(), 42);
}

#[test]
fn failed_refresh_before_any_success_keeps_initial_value() {
    let mut metrics = Metrics::new();
    refresh_cycle(&mut metrics, false);
    assert_eq!(metrics.my_project_metric.get(), 0);
}

#[test]
fn scrape_exposes_text_format() {
    let mut metrics = Metrics::new();
    refresh_cycle(&mut metrics, true);
    assert_eq!(
        metrics.scrape(),
        "# HELP my_project_metric my_project_metric description\n\
         # TYPE my_project_metric gauge\n\
         my_project_metric 42\n"
    );
}

#[test]
fn scrape_renders_negative_values() {
    let mut gauge = IntGauge::new(String::from("g"), String::from("h"));
    gauge.set(-105);
    assert_eq!(gauge.get(), -105);
    let mut metrics = Metrics::default();
    metrics.my_project_metric.set(-7);
    assert_eq!(
        metrics.scrape(),
        "# HELP my_project_metric my_project_metric description\n\
         # TYPE my_project_metric gauge\n\
         my_project_metric -7\n"
    );
}

#[test]
fn refresh_interval_is_a_minute() {
    assert_eq!(METRICS_UPDATE_INTERVAL, 60);
}
