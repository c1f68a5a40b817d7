use k6_reports::app::App;
use k6_reports::cli::Command;
use k6_reports::decode::DecodeError;
use k6_reports::export::{render_csv, MetricError};
use k6_reports::metrics::registry;
use k6_reports::query::QueryBuildError;
use k6_reports::report::SessionError;
use k6_reports::run::{ExtractionRun, RunStatus};
use k6_reports::text::{encode_cell, encode_line, join_strings};

fn s(x: &str) -> Option<String> {
    Some(x.to_string())
}

#[test]
fn cell_quoting() {
    assert_eq!(encode_cell("plain"), "plain");
    assert_eq!(encode_cell(""), "");
    assert_eq!(encode_cell("a,b"), "\"a,b\"");
    assert_eq!(encode_cell("say \"hi\""), "\"say \"\"hi\"\"\"");
    assert_eq!(encode_cell("two\nlines"), "\"two\nlines\"");
    assert_eq!(encode_line(&vec!["a".to_string(), "b,c".to_string()]), "a,\"b,c\"\n");
    assert_eq!(join_strings(&vec![], ", "), "");
}

#[test]
fn csv_header_and_rows_follow_fields() {
    let checks = registry().into_iter().find(|m| m.name == "checks").unwrap();
    let rows = vec![
        vec![s("2020-01-01T00:00:00Z"), s("status is 200"), None, s("GET"), s("default"), s("1")],
        vec![s("2020-01-01T00:00:01Z"), s("a, b"), s("::setup"), s("POST"), None, s("0.5")],
    ];
    let csv = render_csv(&checks, &rows).unwrap();
    assert_eq!(
        csv,
        "time,check,group,method,scenario,value\n\
         2020-01-01T00:00:00Z,status is 200,,GET,default,1\n\
         2020-01-01T00:00:01Z,\"a, b\",::setup,POST,,0.5\n"
    );
    let again = render_csv(&checks, &rows).unwrap();
    assert_eq!(csv, again);
}

#[test]
fn csv_of_http_metric_coerces_fields() {
    let m = registry().into_iter().find(|m| m.name == "http_req_duration").unwrap();
    let row = vec![
        s("2020-01-01T00:00:00Z"),
        s("nope"),
        None,
        s("GET"),
        s("home"),
        s("HTTP/1.1"),
        s("default"),
        s("200"),
        s("tls1.3"),
        s("http://x/"),
        s("12.5"),
    ];
    let csv = render_csv(&m, &vec![row]).unwrap();
    let lines: Vec<&str> = csv.lines().collect();
    assert_eq!(
        lines[0],
        "time,expected_response,group,method,name,proto,scenario,status,tls_version,url,value"
    );
    assert_eq!(lines[1], "2020-01-01T00:00:00Z,false,,GET,home,HTTP/1.1,default,200,tls1.3,http://x/,12.5");
    assert_eq!(lines[1].split(',').count(), lines[0].split(',').count());
}

#[test]
fn csv_of_empty_series_is_header_only() {
    let m = registry().into_iter().find(|m| m.name == "vus_max").unwrap();
    assert_eq!(render_csv(&m, &vec![]).unwrap(), "time,value\n");
}

#[test]
fn csv_reports_first_bad_row() {
    let m = registry().into_iter().find(|m| m.name == "vus").unwrap();
    let rows = vec![vec![s("2020-01-01T00:00:00Z"), s("1")], vec![s("2020-01-01T00:00:01Z"), None], vec![s("2020-01-01T00:00:02Z")]];
    match render_csv(&m, &rows) {
        Err(MetricError::Decode { row, error }) => {
            assert_eq!(row, 1);
            assert_eq!(error, DecodeError::InvalidValue { column: 1 });
        }
        other => panic!("unexpected {:?}", other),
    }
}

#[test]
fn one_failure_does_not_stop_the_run() {
    let mut run = ExtractionRun::new();
    let names = ["checks", "vus", "vus_max"];
    for (k, name) in names.iter().enumerate() {
        let outcome = if k == 1 {
            Err(MetricError::Execution("connection refused".to_string()))
        } else {
            Ok(())
        };
        let line = run.record(name, &outcome);
        if k == 1 {
            assert_eq!(line, "export for `vus` failed: the query failed: connection refused");
        } else {
            assert_eq!(line, format!("export for `{}` completed", name));
        }
    }
    assert_eq!(run.entries.len(), 3);
    assert_eq!(run.failed_metrics(), vec!["vus".to_string()]);
    match run.finish(None) {
        RunStatus::Finished { failed } => assert_eq!(failed, 1),
        other => panic!("unexpected {:?}", other),
    }
}

#[test]
fn fatal_condition_aborts_the_run() {
    let mut run = ExtractionRun::new();
    run.record("checks", &Err(MetricError::Query(QueryBuildError::TimeOutOfRange)));
    assert_eq!(
        run.entries[0].status_line(),
        "export for `checks` failed: the lower time bound is out of range"
    );
    match run.finish(Some("cannot create ./reports".to_string())) {
        RunStatus::Aborted(m) => assert_eq!(m, "cannot create ./reports"),
        other => panic!("unexpected {:?}", other),
    }
}

#[test]
fn app_builds_session_from_command() {
    let app = App::new();
    let cmd = Command::Extract {
        host: "localhost".to_string(),
        port: "8086".to_string(),
        database: "k6".to_string(),
        username: Some("u".to_string()),
        password: None,
        https: false,
        from: None,
        exclude_setup_steps: false,
        exclude_teardown_steps: false,
        output_directory: "./reports".to_string(),
    };
    assert_eq!(app.session(&cmd).unwrap_err(), SessionError::IncompleteCredentials);
}

#[test]
fn run_from_outcomes_isolates_failure() {
    let names = ["checks", "data_sent", "vus", "vus_max"];
    let outcomes: Vec<(String, Result<(), MetricError>)> = names
        .iter()
        .enumerate()
        .map(|(k, n)| {
            let o = if k == 2 { Err(MetricError::Write("disk full".to_string())) } else { Ok(()) };
            (n.to_string(), o)
        })
        .collect();
    let run = ExtractionRun::from_outcomes(&outcomes);
    assert_eq!(run.entries.len(), 4);
    for (k, entry) in run.entries.iter().enumerate() {
        assert_eq!(entry.metric, names[k]);
        if k == 2 {
            assert_eq!(entry.failure.as_deref(), Some("the file could not be written: disk full"));
        } else {
            assert_eq!(entry.failure, None);
        }
    }
    assert_eq!(run.failed_metrics(), vec!["vus".to_string()]);
    match run.finish(None) {
        RunStatus::Finished { failed } => assert_eq!(failed, 1),
        other => panic!("unexpected {:?}", other),
    }
}

#[test]
fn malformed_timestamp_fails_the_row() {
    let m = registry().into_iter().find(|m| m.name == "vus").unwrap();
    let rows = vec![vec![s("2020-01-01T00:00:00Z"), s("1")], vec![s("yesterday"), s("2")]];
    match render_csv(&m, &rows) {
        Err(MetricError::Decode { row, error }) => {
            assert_eq!(row, 1);
            assert_eq!(error, DecodeError::InvalidValue { column: 0 });
        }
        other => panic!("unexpected {:?}", other),
    }
    let ok = vec![vec![s("2020-01-01 00:00:00.5+02:00"), s("1")]];
    assert_eq!(render_csv(&m, &ok).unwrap(), "time,value\n2020-01-01 00:00:00.5+02:00,1\n");
}
