//! Decimal and JSON text rendering.

use my_project_name::model::{HealthCheck, ProbeOutcome};
use my_project_name::render::{bool_str, push_dec, push_dec_signed, push_json_escaped, str_eq};

#[test]
fn decimal_rendering() {
    let mut out = String::new();
    push_dec(&mut out, 0);
    assert_eq!(out, "0");

    let mut out = String::new();
    push_dec(&mut out, 10);
    assert_eq!(out, "10");

    let mut out = String::new();
    push_dec(&mut out, 9876543210);
    assert_eq!(out, "9876543210");

    let mut out = String::new();
    push_dec(&mut out, u64::MAX);
    assert_eq!(out, "18446744073709551615");
}

#[test]
fn signed_decimal_rendering() {
    let mut out = String::new();
    push_dec_signed(&mut out, -42);
    assert_eq!(out, "-42");

    let mut out = String::new();
    push_dec_signed(&mut out, i64::MIN);
    assert_eq!(out, "-9223372036854775808");

    let mut out = String::new();
    push_dec_signed(&mut out, i64::MAX);
    assert_eq!(out, "9223372036854775807");
}

#[test]
fn json_escaping() {
    let mut out = String::new();
    push_json_escaped(&mut out, "say \"hi\" \\ there");
    assert_eq!(out, "say \\\"hi\\\" \\\\ there");

    let mut out = String::new();
    push_json_escaped(&mut out, "line\nbreak\ttab\u{1f}");
    assert_eq!(out, "line\\u000abreak\\u0009tab\\u001f");

    let mut out = String::new();
    push_json_escaped(&mut out, "plain text stays");
    assert_eq!(out, "plain text stays");
}

#[test]
fn escaped_description_in_health_body() {
    let healthcheck = HealthCheck::new(ProbeOutcome::QueryFailed(String::from(
        "relation \"x\" does not exist",
    )));
    assert_eq!(
        healthcheck.to_json(),
        "{\"healthy\":false,\"db_connected\":false,\"description\":\"relation \\\"x\\\" does not exist\"}"
    );
}

#[test]
fn bool_and_string_helpers() {
    assert_eq!(bool_str(true), "true");
    assert_eq!(bool_str(false), "false");
    assert!(str_eq("abc", "abc"));
    assert!(!str_eq("abc", "abd"));
    assert!(!str_eq("abc", "abcd"));
}
