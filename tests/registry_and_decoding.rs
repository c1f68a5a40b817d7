use k6_reports::decode::{
    coerce_bool, coerce_u16, decode_cell, decode_record, port_number, u16_text, DecodeError,
};
use k6_reports::metrics::{registry, FieldKind, K6Metric};
use k6_reports::timestamp::UtcTimestamp;

#[test]
fn registry_covers_supported_series() {
    let names: Vec<String> = registry().iter().map(|m| m.name.clone()).collect();
    assert_eq!(
        names,
        vec![
            "checks",
            "data_received",
            "data_sent",
            "http_req_blocked",
            "http_req_connecting",
            "http_req_tls_handshaking",
            "http_req_sending",
            "http_req_waiting",
            "http_req_receiving",
            "http_req_duration",
            "http_req_failed",
            "iterations",
            "iteration_duration",
            "vus",
            "vus_max",
        ]
    );
}

#[test]
fn registry_names_unique_and_time_first() {
    let reg = registry();
    for (i, a) in reg.iter().enumerate() {
        for b in reg.iter().skip(i + 1) {
            assert_ne!(a.name, b.name);
        }
        assert_eq!(a.query_fields()[0], "time");
        assert_eq!(a.fields[0].kind, FieldKind::Timestamp);
        let has_group = a.query_fields().iter().any(|f| f == "group");
        assert_eq!(a.exclusion_filters_apply(), has_group);
    }
}

#[test]
fn lenient_bool_coercion() {
    assert!(coerce_bool("true"));
    assert!(!coerce_bool("false"));
    assert!(!coerce_bool("TRUE"));
    assert!(!coerce_bool("yes"));
    assert!(!coerce_bool(""));
    assert!(!coerce_bool("true "));
}

#[test]
fn lenient_u16_coercion() {
    assert_eq!(coerce_u16("200"), 200);
    assert_eq!(coerce_u16("+404"), 404);
    assert_eq!(coerce_u16("0007"), 7);
    assert_eq!(coerce_u16("65535"), 65535);
    assert_eq!(coerce_u16("65536"), 0);
    assert_eq!(coerce_u16("999999"), 0);
    assert_eq!(coerce_u16(""), 0);
    assert_eq!(coerce_u16("+"), 0);
    assert_eq!(coerce_u16("-1"), 0);
    assert_eq!(coerce_u16("20x"), 0);
}

#[test]
fn decimal_text_of_u16() {
    assert_eq!(u16_text(0), "0");
    assert_eq!(u16_text(7), "7");
    assert_eq!(u16_text(404), "404");
    assert_eq!(u16_text(65535), "65535");
}

#[test]
fn cells_decode_by_kind() {
    let some = |s: &str| Some(s.to_string());
    assert_eq!(decode_cell(FieldKind::OptionalText, &None), Some(String::new()));
    assert_eq!(decode_cell(FieldKind::Text, &None), None);
    assert_eq!(decode_cell(FieldKind::LenientBool, &some("true")), some("true"));
    assert_eq!(decode_cell(FieldKind::LenientBool, &some("maybe")), some("false"));
    assert_eq!(decode_cell(FieldKind::LenientU16, &some("+0200")), some("200"));
    assert_eq!(decode_cell(FieldKind::LenientU16, &some("n/a")), some("0"));
    assert_eq!(decode_cell(FieldKind::Number, &some("1.5")), some("1.5"));
    assert_eq!(decode_cell(FieldKind::Timestamp, &some("2020-01-01T00:00:00Z")), some("2020-01-01T00:00:00Z"));
    assert_eq!(decode_cell(FieldKind::Timestamp, &some("2020-13-01T00:00:00Z")), None);
}

#[test]
fn record_decoding_errors() {
    let vus = registry().into_iter().find(|m| m.name == "vus").unwrap();
    let short = vec![Some("2020-01-01T00:00:00Z".to_string())];
    assert_eq!(
        decode_record(&vus, &short).unwrap_err(),
        DecodeError::ColumnCount { expected: 2, found: 1 }
    );
    let missing = vec![Some("2020-01-01T00:00:00Z".to_string()), None];
    assert_eq!(decode_record(&vus, &missing).unwrap_err(), DecodeError::InvalidValue { column: 1 });
    let ok = vec![Some("2020-01-01T00:00:00Z".to_string()), Some("3".to_string())];
    assert_eq!(decode_record(&vus, &ok).unwrap(), vec!["2020-01-01T00:00:00Z", "3"]);
}

#[test]
fn timestamp_text_and_arithmetic() {
    let t = UtcTimestamp { seconds: 1431648000, nanos: 0 };
    assert_eq!(t.to_rfc3339().unwrap(), "2015-05-15T00:00:00Z");
    let earlier = t.minus_minutes(60).unwrap();
    assert_eq!(earlier, UtcTimestamp { seconds: 1431644400, nanos: 0 });
    assert_eq!(earlier.to_rfc3339().unwrap(), "2015-05-14T23:00:00Z");
    assert_eq!(UtcTimestamp { seconds: i64::MIN, nanos: 0 }.minus_minutes(1), None);
    assert_eq!(UtcTimestamp { seconds: i64::MAX, nanos: 0 }.to_rfc3339(), None);
}

#[test]
fn port_numbers() {
    assert_eq!(port_number("8086"), Some(8086));
    assert_eq!(port_number("0443"), Some(443));
    assert_eq!(port_number("65535"), Some(65535));
    assert_eq!(port_number("65536"), None);
    assert_eq!(port_number("+80"), None);
    assert_eq!(port_number("80a"), None);
    assert_eq!(port_number(""), None);
}
