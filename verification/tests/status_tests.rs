use request_executor::status::{Status, MAX_STATUS, MIN_STATUS};

#[test]
fn codes_from_100_to_999_are_statuses() {
    assert_eq!(MIN_STATUS, 100);
    assert_eq!(MAX_STATUS, 999);
    for code in 0u16..=1100 {
        match Status::new(code) {
            Some(status) => {
                assert!((100..=999).contains(&code));
                assert_eq!(status.code(), code);
            }
            None => assert!(!(100..=999).contains(&code)),
        }
    }
    assert!(Status::new(u16::MAX).is_none());
}

#[test]
fn known_codes_show_their_reason() {
    assert_eq!(Status::new(200).unwrap().line(), "200 OK");
    assert_eq!(Status::new(100).unwrap().line(), "100 Continue");
    assert_eq!(Status::new(404).unwrap().line(), "404 Not Found");
    assert_eq!(Status::new(500).unwrap().line(), "500 Internal Server Error");
    assert_eq!(Status::new(418).unwrap().line(), "418 I'm a teapot");
}

#[test]
fn unknown_codes_show_a_stand_in() {
    assert_eq!(Status::new(999).unwrap().line(), "999 <unknown status code>");
    assert_eq!(Status::new(299).unwrap().line(), "299 <unknown status code>");
}

#[test]
fn every_line_starts_with_the_code_and_a_space() {
    for code in 100u16..=999 {
        let line = Status::new(code).unwrap().line();
        assert!(line.starts_with(&format!("{} ", code)), "{}", line);
        assert!(line.len() > 4);
    }
}

#[test]
fn a_line_is_what_the_transport_prints() {
    for code in [100u16, 204, 301, 403, 503, 600, 999] {
        let theirs = reqwest::StatusCode::from_u16(code).unwrap();
        assert_eq!(Status::new(code).unwrap().line(), format!("{}", theirs));
    }
}
