use axum::http::{HeaderMap, HeaderValue};
use catchall_logger::handler::{fixed_reply, handle, RequestSnapshot, OK_STATUS};
use catchall_logger::record::{
    body_text, query_text, record_from_parts, LogRecord, BODY_PREFIX, END_MARKER,
    HEADERS_PREFIX, RAW_BODY_PREFIX, START_MARKER,
};

fn snapshot(headers: &[(&'static str, &'static str)], query: Option<&str>, body: &[u8]) -> RequestSnapshot {
    let mut map = HeaderMap::new();
    for (name, value) in headers {
        map.append(*name, HeaderValue::from_static(value));
    }
    RequestSnapshot {
        headers: map,
        query: query.map(|q| q.to_string()),
        body: body.to_vec(),
    }
}

fn has_body_line(record: &LogRecord) -> bool {
    record
        .lines
        .iter()
        .any(|l| l.starts_with(BODY_PREFIX) || l.starts_with(RAW_BODY_PREFIX))
}

#[test]
fn get_with_query_and_header_logs_no_body() {
    let req = snapshot(&[("x-test", "abc")], Some("x=1&y=2"), b"");
    let (record, reply) = handle(&req);
    assert_eq!(reply.status, 200);
    assert_eq!(reply.body, "");
    assert_eq!(
        record.lines,
        vec![
            START_MARKER.to_string(),
            "Headers: {\"x-test\": \"abc\"}".to_string(),
            "Query: x=1&y=2".to_string(),
            END_MARKER.to_string(),
            String::new(),
        ]
    );
    assert!(record.lines.iter().any(|l| l.contains("x-test") && l.contains("abc")));
    assert!(!has_body_line(&record));
}

#[test]
fn post_json_body_logged_verbatim() {
    let req = snapshot(&[("content-type", "application/json")], None, b"{\"a\":1}");
    let (record, reply) = handle(&req);
    assert_eq!(reply.status, OK_STATUS);
    assert_eq!(reply.body, "");
    assert_eq!(record.lines.len(), 6);
    assert_eq!(record.lines[1], "Headers: {\"content-type\": \"application/json\"}");
    assert_eq!(record.lines[2], "Query: (none)");
    assert_eq!(record.lines[3], "Body: {\"a\":1}");
}

#[test]
fn binary_body_logged_as_bytes() {
    let req = snapshot(&[], None, &[0xFF, 0xFE, 0x00]);
    let (record, reply) = handle(&req);
    assert_eq!(reply.status, 200);
    assert_eq!(reply.body, "");
    assert_eq!(record.lines.len(), 6);
    assert_eq!(record.lines[1], "Headers: {}");
    assert_eq!(record.lines[3], "Body (not UTF-8): b\"\\xff\\xfe\\0\"");
    assert!(record.lines[3].is_ascii());
}

#[test]
fn every_byte_escape_is_used() {
    let body = vec![0x80, b'\n', b'\r', b'\t', b'\\', b'"', 0, b' ', b'~', 0x7f, 0x1f, b'A'];
    let line = body_text(&body).unwrap();
    assert_eq!(line, "Body (not UTF-8): b\"\\x80\\n\\r\\t\\\\\\\"\\0 ~\\x7f\\x1fA\"");
}

#[test]
fn multibyte_utf8_body_is_decoded() {
    let body = "héllo ✓".as_bytes().to_vec();
    assert_eq!(body_text(&body), Some("Body: héllo ✓".to_string()));
}

#[test]
fn truncated_utf8_sequence_is_not_text() {
    let body = vec![b'a', 0xC3];
    assert_eq!(body_text(&body), Some("Body (not UTF-8): b\"a\\xc3\"".to_string()));
}

#[test]
fn empty_body_gives_no_line() {
    assert_eq!(body_text(&Vec::new()), None);
}

#[test]
fn query_rendering() {
    assert_eq!(query_text(&Some("a=b".to_string())), "Query: a=b");
    assert_eq!(query_text(&Some(String::new())), "Query: ");
    assert_eq!(query_text(&None), "Query: (none)");
}

#[test]
fn parts_build_the_record() {
    let record = record_from_parts("{}", &Some("k=v".to_string()), &b"hi".to_vec());
    assert_eq!(
        record.lines,
        vec![
            START_MARKER.to_string(),
            format!("{}{{}}", HEADERS_PREFIX),
            "Query: k=v".to_string(),
            "Body: hi".to_string(),
            END_MARKER.to_string(),
            String::new(),
        ]
    );
}

#[test]
fn record_text_is_one_block() {
    let req = snapshot(&[("x-test", "abc")], Some("q=1"), b"payload");
    let (record, _) = handle(&req);
    let text = record.text();
    assert_eq!(
        text,
        format!(
            "{}\nHeaders: {{\"x-test\": \"abc\"}}\nQuery: q=1\nBody: payload\n{}\n\n",
            START_MARKER, END_MARKER
        )
    );
    assert!(text.starts_with(&format!("{}\n", START_MARKER)));
    assert!(text.ends_with(&format!("{}\n\n", END_MARKER)));
    assert_eq!(text.matches(START_MARKER).count(), 1);
}

#[test]
fn repeated_headers_are_kept() {
    let req = snapshot(&[("x-a", "1"), ("x-a", "2"), ("x-b", "q\"t")], None, b"");
    let (record, _) = handle(&req);
    assert_eq!(record.lines[1], "Headers: {\"x-a\": \"1\", \"x-a\": \"2\", \"x-b\": \"q\\\"t\"}");
}

#[test]
fn reply_is_always_empty_ok() {
    let reply = fixed_reply();
    assert_eq!(reply.status, 200);
    assert!(reply.body.is_empty());
    for body in [&b""[..], &b"x"[..], &[0xFFu8][..]] {
        let (_, reply) = handle(&snapshot(&[("accept", "*/*")], Some("a"), body));
        assert_eq!(reply.status, 200);
        assert_eq!(reply.body, "");
    }
}
