use request_executor::status::Status;
use request_executor::summary::{body_text, summarize, ResponseSummary, BODY_SENTINEL};
use request_executor::timestamp::Timestamp;
use reqwest::header::{HeaderMap, HeaderName, HeaderValue};

fn headers(pairs: &[(&str, &str)]) -> HeaderMap {
    let mut map = HeaderMap::new();
    for (name, value) in pairs {
        map.append(
            HeaderName::from_bytes(name.as_bytes()).unwrap(),
            HeaderValue::from_str(value).unwrap(),
        );
    }
    map
}

fn summary(code: u16, pairs: &[(&str, &str)], body: &str) -> ResponseSummary {
    ResponseSummary {
        timestamp: Timestamp::new(2024, 1, 2, 3, 4, 5).unwrap(),
        status_code: Status::new(code).unwrap(),
        headers: headers(pairs),
        body_text: body.to_string(),
    }
}

fn split_timestamp(line: &str) -> (&str, &str) {
    let rest = line.strip_prefix("Executed on ").unwrap();
    rest.split_at(rest.find(". Status ").unwrap())
}

#[test]
fn the_line_has_timestamp_status_headers_and_body() {
    let line = summary(200, &[("Content-Type", "text/plain")], "hello").message();
    assert_eq!(
        line,
        "Executed on 2024-01-02 03:04:05. Status 200 OK; \
         Headers: {\"content-type\": \"text/plain\"}; Body: hello"
    );
}

#[test]
fn a_response_without_headers_or_body_still_has_every_part() {
    let line = summary(204, &[], "").message();
    assert_eq!(line, "Executed on 2024-01-02 03:04:05. Status 204 No Content; Headers: {}; Body: ");
}

#[test]
fn repeated_headers_are_all_shown_beside_the_first() {
    let line = summary(
        200,
        &[("Set-Cookie", "a=1"), ("Content-Length", "0"), ("Set-Cookie", "b=\"2\"")],
        "",
    )
    .message();
    assert_eq!(
        line,
        "Executed on 2024-01-02 03:04:05. Status 200 OK; Headers: {\"set-cookie\": \"a=1\", \
         \"set-cookie\": \"b=\\\"2\\\"\", \"content-length\": \"0\"}; Body: "
    );
}

#[test]
fn headers_are_shown_as_their_debug_form() {
    let made = summary(200, &[("x-a", "1"), ("x-b", "two words")], "");
    let line = made.message();
    assert!(line.contains(&format!("; Headers: {:?}; Body: ", made.headers)));
}

#[test]
fn error_statuses_are_reported_like_any_other() {
    assert_eq!(
        summary(404, &[], "missing").message(),
        "Executed on 2024-01-02 03:04:05. Status 404 Not Found; Headers: {}; Body: missing"
    );
    assert_eq!(
        summary(503, &[], "down").message(),
        "Executed on 2024-01-02 03:04:05. Status 503 Service Unavailable; Headers: {}; Body: down"
    );
}

#[test]
fn every_status_code_shows_in_the_line() {
    for code in 100u16..=999 {
        let line = summary(code, &[], "b").message();
        assert!(line.contains(&format!(". Status {} ", code)), "{}", line);
    }
}

#[test]
fn the_body_is_kept_verbatim() {
    let body = "line one\nline two; Body: not this\t\u{65e5}\u{672c}".repeat(500);
    let line = summary(200, &[], &body).message();
    assert_eq!(line, format!("Executed on 2024-01-02 03:04:05. Status 200 OK; Headers: {{}}; Body: {}", body));
}

#[test]
fn a_decoded_body_is_used_as_it_is() {
    assert_eq!(body_text(Some("hello".to_string())), "hello");
    assert_eq!(body_text(Some(String::new())), "");
    assert_eq!(body_text(Some("[FAILED TO PARSE BODY]".to_string())), "[FAILED TO PARSE BODY]");
}

#[test]
fn an_undecoded_body_becomes_the_sentinel() {
    assert_eq!(BODY_SENTINEL, "[FAILED TO PARSE BODY]");
    assert_eq!(body_text(None), "[FAILED TO PARSE BODY]");
}

#[test]
fn the_same_parts_give_the_same_line() {
    let first = summary(201, &[("Location", "/items/1")], "created");
    let second = summary(201, &[("Location", "/items/1")], "created");
    assert_eq!(first.message(), second.message());
    assert_eq!(first.message(), first.message());
}

#[test]
fn capture_keeps_status_headers_and_body() {
    let status = Status::new(302).unwrap();
    let map = headers(&[("Location", "/next")]);
    let made = ResponseSummary::capture(status, map.clone(), Some("moved".to_string()));
    assert_eq!(made.status_code, status);
    assert_eq!(made.headers, map);
    assert_eq!(made.body_text, "moved");
    let made = ResponseSummary::capture(status, map.clone(), None);
    assert_eq!(made.body_text, "[FAILED TO PARSE BODY]");
}

#[test]
fn capture_takes_the_time_of_the_call() {
    let before = chrono::Local::now().naive_local();
    let made = ResponseSummary::capture(Status::new(200).unwrap(), HeaderMap::new(), None);
    let after = chrono::Local::now().naive_local();
    let taken = chrono::NaiveDate::from_ymd_opt(
        made.timestamp.year(),
        made.timestamp.month(),
        made.timestamp.day(),
    )
    .unwrap()
    .and_hms_opt(made.timestamp.hour(), made.timestamp.minute(), made.timestamp.second())
    .unwrap();
    assert!(before - chrono::Duration::seconds(1) <= taken);
    assert!(taken <= after);
}

#[test]
fn an_ok_text_response_is_summarized() {
    let line = summarize(
        Status::new(200).unwrap(),
        headers(&[("Content-Type", "text/plain")]),
        Some("hello".to_string()),
    );
    assert!(line.contains("Status 200"));
    assert!(line.contains("\"content-type\": \"text/plain\""));
    assert!(line.contains("Body: hello"));
    let (timestamp, rest) = split_timestamp(&line);
    assert_eq!(timestamp.len(), 19);
    assert_eq!(rest, ". Status 200 OK; Headers: {\"content-type\": \"text/plain\"}; Body: hello");
}

#[test]
fn a_response_that_is_no_text_is_summarized_with_the_sentinel() {
    let line = summarize(
        Status::new(200).unwrap(),
        headers(&[("Content-Type", "application/octet-stream")]),
        None,
    );
    assert!(line.ends_with("; Body: [FAILED TO PARSE BODY]"));
    let (_, rest) = split_timestamp(&line);
    assert_eq!(
        rest,
        ". Status 200 OK; Headers: {\"content-type\": \"application/octet-stream\"}; \
         Body: [FAILED TO PARSE BODY]"
    );
}

#[test]
fn the_timestamp_in_the_line_is_the_local_time() {
    let before = chrono::Local::now().naive_local();
    let line = summarize(Status::new(500).unwrap(), HeaderMap::new(), Some(String::new()));
    let after = chrono::Local::now().naive_local();
    let (timestamp, rest) = split_timestamp(&line);
    assert_eq!(rest, ". Status 500 Internal Server Error; Headers: {}; Body: ");
    let taken = chrono::NaiveDateTime::parse_from_str(timestamp, "%Y-%m-%d %H:%M:%S").unwrap();
    assert!(before - chrono::Duration::seconds(1) <= taken);
    assert!(taken <= after);
}
