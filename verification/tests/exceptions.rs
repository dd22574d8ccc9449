use hyper::StatusCode;
use rest_client::exceptions::HTTPException;
use rest_client::text::decimal;
use serde_json::Value;

fn sample_extra() -> serde_json::Map<String, Value> {
    let mut extra = serde_json::Map::new();
    extra.insert("retry".to_string(), Value::from(3));
    extra.insert("hint".to_string(), Value::from("later"));
    extra
}

#[test]
fn test() {
    let err = HTTPException::from_hyper(
        u16::from(StatusCode::Created),
        Some("toto".to_string()),
        None,
        Some("plopp".to_string()),
    );
    println!("{}", err.to_string());
}

#[test]
fn from_hyper_keeps_every_given_part() {
    let err = HTTPException::from_hyper(
        u16::from(StatusCode::Created),
        Some("toto".to_string()),
        Some(sample_extra()),
        Some("plopp".to_string()),
    );
    assert_eq!(err.code(), 201);
    assert_eq!(err.message(), "toto");
    assert_eq!(err.extra(), sample_extra());
    assert_eq!(err.msgid(), Some("plopp".to_string()));
}

#[test]
fn from_hyper_takes_the_reason_phrase_for_a_missing_message() {
    let err = HTTPException::from_hyper(404, None, None, None);
    assert_eq!(err.code(), 404);
    assert_eq!(err.message(), "Not Found");
    assert!(err.extra().is_empty());
    assert_eq!(err.msgid(), None);
    let teapot = HTTPException::from_hyper(u16::from(StatusCode::ImATeapot), None, None, None);
    assert_eq!(teapot.message(), "I'm a teapot");
}

#[test]
fn from_hyper_takes_a_message_for_a_status_without_phrase() {
    let err = HTTPException::from_hyper(299, Some("odd".to_string()), None, None);
    assert_eq!(err.code(), 299);
    assert_eq!(err.message(), "odd");
}

#[test]
fn try_from_hyper_is_none_without_message_and_phrase() {
    assert!(HTTPException::try_from_hyper(299, None, None, None).is_none());
    assert!(HTTPException::try_from_hyper(42, None, None, None).is_none());
    assert!(HTTPException::try_from_hyper(600, None, None, None).is_none());
    let with_message = HTTPException::try_from_hyper(42, Some("m".to_string()), None, None);
    assert_eq!(with_message.unwrap().message(), "m");
    let with_phrase = HTTPException::try_from_hyper(503, None, None, None).unwrap();
    assert_eq!(with_phrase.code(), 503);
    assert_eq!(with_phrase.message(), "Service Unavailable");
}

#[test]
fn new_fills_in_the_defaults() {
    let err = HTTPException::new(500, None, None, None);
    assert_eq!(err.code(), 500);
    assert_eq!(err.message(), "Internal server error");
    assert!(err.extra().is_empty());
    assert_eq!(err.msgid(), None);
}

#[test]
fn new_keeps_what_it_is_given() {
    let err = HTTPException::new(
        418,
        Some("short and stout".to_string()),
        Some(sample_extra()),
        Some("id-7".to_string()),
    );
    assert_eq!(err.code(), 418);
    assert_eq!(err.message(), "short and stout");
    assert_eq!(err.extra(), sample_extra());
    assert_eq!(err.extra().get("retry"), Some(&Value::from(3)));
    assert_eq!(err.msgid(), Some("id-7".to_string()));
}

#[test]
fn a_bare_status_brings_its_reason_phrase() {
    let err = HTTPException::from(u16::from(StatusCode::Forbidden));
    assert_eq!(err.code(), 403);
    assert_eq!(err.message(), "Forbidden");
    assert!(err.extra().is_empty());
    assert_eq!(err.msgid(), None);
}

#[test]
fn a_bare_status_without_phrase_gets_the_default_message() {
    let unregistered = HTTPException::from(u16::from(StatusCode::Unregistered(299)));
    assert_eq!(unregistered.code(), 299);
    assert_eq!(unregistered.message(), "Internal server error");
    let no_status = HTTPException::from(7u16);
    assert_eq!(no_status.code(), 7);
    assert_eq!(no_status.message(), "Internal server error");
}

#[test]
fn display_line_without_extra() {
    let err = HTTPException::new(500, None, None, None);
    assert_eq!(err.to_string(), "Error 500: Internal server error (extra={})");
}

#[test]
fn display_line_with_extra() {
    let err = HTTPException::new(404, Some("gone".to_string()), Some(sample_extra()), None);
    assert_eq!(
        err.to_string(),
        "Error 404: gone (extra={\"hint\":\"later\",\"retry\":3})"
    );
}

#[test]
fn display_line_does_not_show_the_identifier() {
    let err = HTTPException::from_hyper(201, Some("toto".to_string()), None, Some("plopp".to_string()));
    assert_eq!(err.to_string(), "Error 201: toto (extra={})");
}

#[test]
fn debug_line() {
    let err = HTTPException::new(404, Some("gone".to_string()), Some(sample_extra()), None);
    assert_eq!(err.debug_text(), "HttpError<code=404, message='gone'>");
    let zero = HTTPException::new(0, Some(String::new()), None, None);
    assert_eq!(zero.debug_text(), "HttpError<code=0, message=''>");
}

#[test]
fn a_url_error_becomes_code_500_with_its_text() {
    let fault = url::Url::parse("no scheme here").unwrap_err();
    let text = format!("{}", fault);
    let err = HTTPException::from(fault);
    assert_eq!(err.code(), 500);
    assert_eq!(err.message(), text);
    assert_eq!(err.message(), "relative URL without a base");
    assert!(err.extra().is_empty());
    assert_eq!(err.msgid(), None);
}

#[test]
fn a_uri_error_becomes_code_500_with_its_text() {
    let fault = "".parse::<hyper::Uri>().unwrap_err();
    let err = HTTPException::from(fault);
    assert_eq!(err.code(), 500);
    assert_eq!(err.message(), "empty Uri string");
    assert!(err.extra().is_empty());
    assert_eq!(err.msgid(), None);
}

#[test]
fn a_utf8_error_becomes_code_500_with_its_text() {
    let bytes: Vec<u8> = vec![b'a', 0xff];
    let fault = std::str::from_utf8(&bytes).unwrap_err();
    let text = format!("{}", fault);
    let err = HTTPException::from(fault);
    assert_eq!(err.code(), 500);
    assert_eq!(err.message(), text);
    assert!(err.extra().is_empty());
    assert_eq!(err.msgid(), None);
}

#[test]
fn a_json_error_becomes_code_500_with_its_text() {
    let fault = serde_json::from_str::<Value>("{\"a\":").unwrap_err();
    let text = format!("{}", fault);
    let err = HTTPException::from(fault);
    assert_eq!(err.code(), 500);
    assert_eq!(err.message(), text);
    assert!(err.extra().is_empty());
    assert_eq!(err.msgid(), None);
}

#[test]
fn an_io_error_becomes_code_500_with_its_text() {
    let fault = std::io::Error::new(std::io::ErrorKind::TimedOut, "no answer in time");
    let err = HTTPException::from(fault);
    assert_eq!(err.code(), 500);
    assert_eq!(err.message(), "no answer in time");
    assert!(err.extra().is_empty());
    assert_eq!(err.msgid(), None);
}

#[test]
fn a_transport_error_becomes_code_500_with_its_text() {
    let err = HTTPException::from(hyper::Error::Timeout);
    assert_eq!(err.code(), 500);
    assert_eq!(err.message(), "timeout");
    let wrapped = HTTPException::from(hyper::Error::Io(std::io::Error::new(
        std::io::ErrorKind::ConnectionRefused,
        "nobody listens",
    )));
    assert_eq!(wrapped.code(), 500);
    assert_eq!(wrapped.message(), "nobody listens");
    assert!(wrapped.extra().is_empty());
    assert_eq!(wrapped.msgid(), None);
}

#[test]
fn getters_hand_out_copies() {
    let err = HTTPException::new(404, Some("gone".to_string()), Some(sample_extra()), None);
    let mut message = err.message();
    message.push('!');
    let mut extra = err.extra();
    extra.clear();
    assert_eq!(err.message(), "gone");
    assert_eq!(err.extra(), sample_extra());
}

#[test]
fn decimal_numerals() {
    assert_eq!(decimal(0), "0");
    assert_eq!(decimal(7), "7");
    assert_eq!(decimal(10), "10");
    assert_eq!(decimal(507), "507");
    assert_eq!(decimal(9999), "9999");
    assert_eq!(decimal(10000), "10000");
    assert_eq!(decimal(65535), "65535");
}

#[test]
fn decimal_agrees_with_the_standard_formatting() {
    let mut n: u32 = 0;
    while n <= 65535 {
        assert_eq!(decimal(n as u16), format!("{}", n));
        n += 257;
    }
}
