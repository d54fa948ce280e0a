use customer_support::email::{email_from_parts, parse_email, MailError};

#[test]
fn raw_message_is_read() {
    let raw = b"From: Bob <bob@example.com>\r\nSubject: Printer broken\r\n\r\nIt jams on every page.\r\n";
    let e = parse_email(raw).unwrap();
    assert_eq!(e.from, "Bob <bob@example.com>");
    assert_eq!(e.subject, "Printer broken");
    assert_eq!(e.body, "It jams on every page.\r\n");
}

#[test]
fn missing_headers_read_as_empty() {
    let raw = b"X-Other: 1\r\n\r\nbody";
    let e = parse_email(raw).unwrap();
    assert_eq!(e.from, "");
    assert_eq!(e.subject, "");
    assert_eq!(e.body, "body");
}

#[test]
fn parts_make_an_email() {
    let e = email_from_parts(Some("S".to_string()), None, Ok("B".to_string())).unwrap();
    assert_eq!(e.subject, "S");
    assert_eq!(e.from, "");
    assert_eq!(e.body, "B");
    assert_eq!(email_from_parts(Some("S".to_string()), Some("F".to_string()), Err(MailError::Body)), Err(MailError::Body));
}
