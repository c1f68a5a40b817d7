use k6_reports::metrics::{registry, Field, FieldKind, K6Metric, MetricDescriptor};
use k6_reports::query::QueryBuildError;
use k6_reports::report::{K6Report, SessionError};
use k6_reports::timestamp::UtcTimestamp;

fn session(
    invoked_at: UtcTimestamp,
    from: Option<u64>,
    exclude_setup: bool,
    exclude_teardown: bool,
) -> K6Report {
    K6Report::with_invoked_at(
        invoked_at,
        &"localhost".to_string(),
        &"8086".to_string(),
        &"k6".to_string(),
        &None,
        &None,
        false,
        from,
        exclude_setup,
        exclude_teardown,
        &"./reports".to_string(),
    )
    .unwrap()
}

fn epoch() -> UtcTimestamp {
    UtcTimestamp { seconds: 1431648000, nanos: 0 }
}

fn checks_descriptor(applies: bool) -> MetricDescriptor {
    MetricDescriptor {
        name: "checks".to_string(),
        fields: vec![
            Field { name: "time".to_string(), kind: FieldKind::Timestamp },
            Field { name: "group".to_string(), kind: FieldKind::OptionalText },
            Field { name: "value".to_string(), kind: FieldKind::Number },
        ],
        applies_exclusion_filters: applies,
    }
}

#[test]
fn setup_exclusion_scenario() {
    let s = session(epoch(), None, true, false);
    let q = s.build_query(&checks_descriptor(true)).unwrap();
    assert_eq!(
        q.as_str(),
        "SELECT time, group, value FROM k6.autogen.checks WHERE group!='::setup'"
    );
}

#[test]
fn no_filters_no_where_clause() {
    let s = session(epoch(), None, false, false);
    let q = s.build_query(&checks_descriptor(true)).unwrap();
    assert_eq!(q.as_str(), "SELECT time, group, value FROM k6.autogen.checks");
    assert!(!q.as_str().contains("WHERE"));
}

#[test]
fn no_window_no_time_predicate() {
    let s = session(epoch(), None, true, true);
    let q = s.build_query(&checks_descriptor(true)).unwrap();
    assert!(!q.as_str().contains("time >="));
    assert_eq!(
        q.as_str(),
        "SELECT time, group, value FROM k6.autogen.checks WHERE group!='::setup' AND group!='::teardown'"
    );
}

#[test]
fn window_predicate_exact_and_shared() {
    let s = session(epoch(), Some(5), false, true);
    let q = s.build_query(&checks_descriptor(true)).unwrap();
    assert_eq!(
        q.as_str(),
        "SELECT time, group, value FROM k6.autogen.checks WHERE time >= '2015-05-14T23:55:00Z' AND group!='::teardown'"
    );
    for m in registry() {
        let q = s.build_query(&m).unwrap();
        assert!(q.as_str().contains(" WHERE time >= '2015-05-14T23:55:00Z'"));
        assert_eq!(q.as_str().matches("time >=").count(), 1);
    }
}

#[test]
fn window_keeps_subsecond_part() {
    let s = session(UtcTimestamp { seconds: 1431648000, nanos: 453_000_000 }, Some(0), false, false);
    let q = s.build_query(&checks_descriptor(true)).unwrap();
    assert_eq!(
        q.as_str(),
        "SELECT time, group, value FROM k6.autogen.checks WHERE time >= '2015-05-15T00:00:00.453Z'"
    );
}

#[test]
fn window_out_of_range_is_refused() {
    let s = session(epoch(), Some(u64::MAX), false, false);
    assert_eq!(s.build_query(&checks_descriptor(true)).unwrap_err(), QueryBuildError::TimeOutOfRange);
    let far = session(UtcTimestamp { seconds: i64::MIN + 10, nanos: 0 }, Some(1), false, false);
    assert_eq!(far.build_query(&checks_descriptor(true)).unwrap_err(), QueryBuildError::TimeOutOfRange);
}

#[test]
fn exclusions_skip_series_without_group() {
    let s = session(epoch(), None, true, true);
    let q = s.build_query(&checks_descriptor(false)).unwrap();
    assert_eq!(q.as_str(), "SELECT time, group, value FROM k6.autogen.checks");
    let vus = registry().into_iter().find(|m| m.name == "vus").unwrap();
    let q = s.build_query(&vus).unwrap();
    assert_eq!(q.as_str(), "SELECT time, value FROM k6.autogen.vus");
}

#[test]
fn query_projects_fields_in_order() {
    let s = session(epoch(), None, false, false);
    for m in registry() {
        let q = s.build_query(&m).unwrap();
        let expected = format!(
            "SELECT {} FROM k6.autogen.{}",
            m.query_fields().join(", "),
            m.metric_table_name()
        );
        assert_eq!(q.as_str(), expected);
    }
}

#[test]
fn same_session_same_queries() {
    let a = session(epoch(), Some(30), true, true);
    let b = session(epoch(), Some(30), true, true);
    for m in registry() {
        assert_eq!(a.build_query(&m).unwrap().as_str(), b.build_query(&m).unwrap().as_str());
    }
}

#[test]
fn credentials_absent_gives_anonymous_session() {
    let s = session(epoch(), None, false, false);
    assert!(!s.authenticated());
    assert_eq!(s.connection_url, "http://localhost:8086");
}

#[test]
fn credentials_present_gives_authenticated_session() {
    let s = K6Report::with_invoked_at(
        epoch(),
        &"db.example".to_string(),
        &"443".to_string(),
        &"k6".to_string(),
        &Some("admin".to_string()),
        &Some("SECRET-REDACTED".to_string()),
        true,
        None,
        false,
        false,
        &"./reports".to_string(),
    )
    .unwrap();
    assert!(s.authenticated());
    let c = s.credentials.clone().unwrap();
    assert_eq!(c.username, "admin");
    assert_eq!(c.password, "SECRET-REDACTED");
    assert_eq!(s.connection_url, "https://db.example:443");
}

#[test]
fn one_credential_is_refused() {
    for (u, p) in [(Some("admin".to_string()), None), (None, Some("pw".to_string()))] {
        let r = K6Report::with_invoked_at(
            epoch(),
            &"localhost".to_string(),
            &"8086".to_string(),
            &"k6".to_string(),
            &u,
            &p,
            false,
            None,
            false,
            false,
            &"./reports".to_string(),
        );
        assert_eq!(r.unwrap_err(), SessionError::IncompleteCredentials);
    }
}

#[test]
fn session_started_now_keeps_options() {
    let s = K6Report::new(
        &"localhost".to_string(),
        &"8086".to_string(),
        &"k6".to_string(),
        &None,
        &None,
        &false,
        &Some(10),
        &true,
        &false,
        &"./out".to_string(),
    )
    .unwrap();
    assert_eq!(s.from, Some(10));
    assert!(s.exclude_setup_steps);
    assert_eq!(s.retention_policy_name, "autogen");
    assert_eq!(s.output_path("vus"), "./out/vus.csv");
}

fn session_with(host: &str, port: &str) -> Result<K6Report, SessionError> {
    K6Report::with_invoked_at(
        epoch(),
        &host.to_string(),
        &port.to_string(),
        &"k6".to_string(),
        &None,
        &None,
        false,
        None,
        false,
        false,
        &"./reports".to_string(),
    )
}

#[test]
fn malformed_connection_is_refused() {
    for (host, port) in [("localhost", "80a"), ("localhost", ""), ("localhost", "65536"), ("localhost", "+80"), ("", "8086")] {
        assert_eq!(session_with(host, port).unwrap_err(), SessionError::MalformedConnection);
    }
    assert!(session_with("localhost", "65535").is_ok());
    assert!(session_with("localhost", "0").is_ok());
}

#[test]
fn malformed_connection_reported_before_credentials() {
    let r = K6Report::new(
        &"localhost".to_string(),
        &"port".to_string(),
        &"k6".to_string(),
        &Some("u".to_string()),
        &None,
        &false,
        &None,
        &false,
        &false,
        &"./reports".to_string(),
    );
    assert_eq!(r.unwrap_err(), SessionError::MalformedConnection);
}
