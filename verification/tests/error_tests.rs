use outreach_bot::error::{BotError, ErrorKind};

#[test]
fn every_family_has_its_label() {
    let cases = vec![
        (BotError::NetworkError("timed out".to_string()), "Network error: timed out"),
        (BotError::DataParseError("eof".to_string()), "Data parsing error: eof"),
        (BotError::IOError("disk full".to_string()), "I/O error: disk full"),
        (BotError::EmailError("no body".to_string()), "Email sending error: no body"),
        (BotError::SmtpTransportError("refused".to_string()), "SMTP transport error: refused"),
        (BotError::RedisError("gone".to_string()), "Redis operation error: gone"),
        (BotError::TemplateError("bad".to_string()), "Template rendering error: bad"),
        (BotError::InvalidData("odd".to_string()), "Invalid data: odd"),
    ];
    for (error, expected) in cases {
        assert_eq!(error.message(), expected);
    }
}

#[test]
fn kind_and_detail_are_read_back() {
    let error = BotError::RedisError("connection reset".to_string());
    assert_eq!(error.kind(), ErrorKind::Redis);
    assert_eq!(error.detail(), "connection reset");
    let other = BotError::InvalidData(String::new());
    assert_eq!(other.kind(), ErrorKind::InvalidData);
    assert_eq!(other.detail(), "");
    assert_eq!(other.message(), "Invalid data: ");
}

#[test]
fn a_clone_equals_its_source() {
    let error = BotError::NetworkError("dns".to_string());
    assert_eq!(error.clone(), error);
    assert_ne!(error, BotError::IOError("dns".to_string()));
}
