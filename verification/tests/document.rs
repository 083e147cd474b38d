use sheets_fdw::document::{document_rows_of, extract_rows, rows_or_missing};
use sheets_fdw::envelope::strip_envelope;
use sheets_fdw::error::{Operation, ScanError};
use sheets_fdw::request::{request_url, scan_request, Method};
use sheets_fdw::text::decimal;

fn json(text: &str) -> serde_json::Value {
    serde_json::from_str(text).unwrap()
}

#[test]
fn envelope_is_taken_off() {
    assert_eq!(strip_envelope(")]}'\n{}"), Some("{}"));
    assert_eq!(strip_envelope(")]}'\n"), Some(""));
    assert_eq!(strip_envelope(")]}'\n)]}'\n"), Some(")]}'\n"));
    assert_eq!(strip_envelope(")]}'\n\u{e9}t\u{e9}"), Some("\u{e9}t\u{e9}"));
}

#[test]
fn body_without_envelope_is_refused() {
    assert_eq!(strip_envelope(""), None);
    assert_eq!(strip_envelope(")]}'"), None);
    assert_eq!(strip_envelope(")]}' {}"), None);
    assert_eq!(strip_envelope(" )]}'\n{}"), None);
    assert_eq!(strip_envelope("{}"), None);
    assert_eq!(strip_envelope("(]}'\n{}"), None);
    assert_eq!(strip_envelope(")[}'\n{}"), None);
    assert_eq!(strip_envelope(")]{'\n{}"), None);
    assert_eq!(strip_envelope(")]}\"\n{}"), None);
    assert_eq!(strip_envelope(")]}'\r\n{}"), None);
    assert_eq!(strip_envelope("\u{e9}\u{e9}\u{e9}\u{e9}\u{e9}{}"), None);
}

#[test]
fn rows_found_are_handed_on() {
    let rows = vec![json("1"), json("\"two\"")];
    assert_eq!(rows_or_missing(Some(rows.clone())), Ok(rows));
    assert_eq!(rows_or_missing(Some(Vec::new())), Ok(Vec::new()));
    assert_eq!(rows_or_missing(None), Err(ScanError::MissingRows));
}

#[test]
fn rows_are_the_array_at_table_rows() {
    let doc = json(r#"{"version":"0.6","table":{"cols":[],"rows":[{"c":[{"v":1}]},{"c":[]}]}}"#);
    assert_eq!(
        document_rows_of(&doc),
        Ok(vec![json(r#"{"c":[{"v":1}]}"#), json(r#"{"c":[]}"#)])
    );
}

#[test]
fn a_document_without_an_array_of_rows_has_none() {
    for text in [
        "{}",
        "null",
        "[]",
        r#"{"table":null}"#,
        r#"{"table":{}}"#,
        r#"{"table":{"rows":null}}"#,
        r#"{"table":{"rows":"none"}}"#,
        r#"{"table":{"rows":{"c":[]}}}"#,
        r#"{"rows":[]}"#,
        r#"{"table":[{"rows":[]}]}"#,
    ] {
        assert_eq!(document_rows_of(&json(text)), Err(ScanError::MissingRows));
    }
}

#[test]
fn rows_are_extracted_from_a_body() {
    assert_eq!(
        extract_rows(")]}'\n{\"table\":{\"rows\":[{\"c\":[{\"v\":1.0},{\"v\":\"Alice\"}]}]}}"),
        Ok(vec![json(r#"{"c":[{"v":1.0},{"v":"Alice"}]}"#)])
    );
    assert_eq!(extract_rows(")]}'\n{\"table\":{\"rows\":[]}}"), Ok(Vec::new()));
}

#[test]
fn each_failure_of_extraction() {
    assert_eq!(extract_rows("{\"table\":{\"rows\":[]}}"), Err(ScanError::InvalidEnvelope));
    assert_eq!(extract_rows("not json either"), Err(ScanError::InvalidEnvelope));
    assert_eq!(extract_rows(")]}'\n{\"table\":{}}"), Err(ScanError::MissingRows));
    let expected = serde_json::from_str::<serde_json::Value>("{\"table\"")
        .unwrap_err()
        .to_string();
    assert_eq!(
        extract_rows(")]}'\n{\"table\""),
        Err(ScanError::MalformedJson(expected))
    );
    let expected = serde_json::from_str::<serde_json::Value>("{} trailing")
        .unwrap_err()
        .to_string();
    assert_eq!(
        extract_rows(")]}'\n{} trailing"),
        Err(ScanError::MalformedJson(expected))
    );
}

#[test]
fn urls() {
    assert_eq!(
        request_url("https://docs.google.com/spreadsheets/d", "abc123", None),
        "https://docs.google.com/spreadsheets/d/abc123/gviz/tq?tqx=out:json"
    );
    assert_eq!(
        request_url("https://docs.google.com/spreadsheets/d", "abc123", Some("2")),
        "https://docs.google.com/spreadsheets/d/abc123/gviz/tq?gid=2&tqx=out:json"
    );
    assert_eq!(request_url("", "", None), "//gviz/tq?tqx=out:json");
    assert_eq!(request_url("b", "d", Some("")), "b/d/gviz/tq?gid=&tqx=out:json");
}

#[test]
fn the_scan_request_is_a_get_with_two_headers() {
    let request = scan_request("http://x/y".to_string());
    assert_eq!(request.method, Method::Get);
    assert_eq!(request.url, "http://x/y");
    assert_eq!(request.body, "");
    assert_eq!(request.headers.len(), 2);
    assert_eq!(request.headers[0], ("user-agent".to_string(), "Sheets FDW".to_string()));
    assert_eq!(request.headers[1], ("x-datasource-auth".to_string(), "true".to_string()));
}

#[test]
fn decimal_rendering() {
    assert_eq!(decimal(0), "0");
    assert_eq!(decimal(7), "7");
    assert_eq!(decimal(9), "9");
    assert_eq!(decimal(10), "10");
    assert_eq!(decimal(99), "99");
    assert_eq!(decimal(100), "100");
    assert_eq!(decimal(1234567890), "1234567890");
    assert_eq!(decimal(4294967295), "4294967295");
    assert_eq!(decimal(u64::MAX), "18446744073709551615");
    for n in 0..2000u64 {
        assert_eq!(decimal(n), n.to_string());
    }
}

#[test]
fn messages() {
    assert_eq!(ScanError::InvalidEnvelope.message(), "invalid response");
    assert_eq!(ScanError::MissingRows.message(), "cannot get rows from response");
    assert_eq!(
        ScanError::UnsupportedColumnType("age".to_string()).message(),
        "column age data type is not supported"
    );
    assert_eq!(
        ScanError::UnsupportedOperation(Operation::Rescan).message(),
        "re_scan on foreign table is not supported"
    );
    assert_eq!(
        ScanError::UnsupportedOperation(Operation::Modify).message(),
        "modify on foreign table is not supported"
    );
    assert_eq!(ScanError::Transport("timed out".to_string()).message(), "timed out");
    assert_eq!(
        ScanError::MalformedJson("EOF while parsing".to_string()).message(),
        "EOF while parsing"
    );
    assert_eq!(
        ScanError::Configuration("spread_sheet_id".to_string()).message(),
        "required option 'spread_sheet_id' is not specified"
    );
}

#[test]
fn operation_names() {
    assert_eq!(Operation::Rescan.name(), "rescan");
    assert_eq!(Operation::Modify.name(), "modify");
}
