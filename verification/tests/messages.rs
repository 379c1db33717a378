use restson::text::decimal;
use restson::{Error, Timeout};

fn json_error() -> serde_json::Error {
    serde_json::from_str::<u32>("x").unwrap_err()
}

#[test]
fn errors_without_detail_say_what_they_are() {
    assert_eq!(Error::HttpClientError.message(), "HTTP Client creation failed");
    assert_eq!(Error::UrlError.message(), "Failed to parse final URL");
    assert_eq!(Error::RequestError.message(), "Failed to make the outgoing request");
    assert_eq!(Error::TimeoutError.message(), "Request has timed out");
    assert_eq!(Error::InvalidValue.message(), "Invalid parameter value");
    assert_eq!(Error::TimeoutError.describe(), "Request has timed out");
}

#[test]
fn http_error_says_status_and_body() {
    assert_eq!(
        Error::HttpError(418, String::from("I'm a teapot")).message(),
        "Server returned non-success status: HTTP status 418: I'm a teapot"
    );
    assert_eq!(
        Error::HttpError(0, String::new()).message(),
        "Server returned non-success status: HTTP status 0: "
    );
    assert_eq!(
        Error::HttpError(65535, String::from("x")).message(),
        "Server returned non-success status: HTTP status 65535: x"
    );
}

#[test]
fn errors_with_a_cause_say_what_it_says() {
    let detail = json_error().to_string();
    assert_eq!(
        Error::SerializeParseError(json_error()).message(),
        format!("Failed to serialize struct to JSON (in POST): {}", detail)
    );
    assert_eq!(
        Error::DeserializeParseError(json_error(), String::from("x")).message(),
        format!("Failed to deserialize data to struct (in GET or POST): {}", detail)
    );
    let io = std::io::Error::new(std::io::ErrorKind::Other, "no runtime");
    assert_eq!(
        Error::IoError(io).message(),
        "Failed to make the outgoing request due to IO error: no runtime"
    );
}

#[test]
fn decimal_numerals() {
    assert_eq!(decimal(0), "0");
    assert_eq!(decimal(7), "7");
    assert_eq!(decimal(10), "10");
    assert_eq!(decimal(1234567890), "1234567890");
    assert_eq!(decimal(u64::MAX), "18446744073709551615");
}

#[test]
fn time_limits() {
    assert!(Timeout::unbounded().is_unbounded());
    assert_eq!(Timeout::unbounded().as_secs(), u64::MAX);
    assert!(!Timeout::from_secs(u64::MAX - 1).is_unbounded());
    assert_eq!(Timeout::from_secs(10).as_secs(), 10);
    assert_eq!(Timeout::from_secs(10).subsec_nanos(), 0);
    let limit = Timeout::new(1, 500_000_000).unwrap();
    assert_eq!(limit.as_secs(), 1);
    assert_eq!(limit.subsec_nanos(), 500_000_000);
    assert!(Timeout::new(u64::MAX, 1).is_some());
    assert!(!Timeout::new(u64::MAX, 1).unwrap().is_unbounded());
    assert!(Timeout::new(0, 1_000_000_000).is_none());
}
