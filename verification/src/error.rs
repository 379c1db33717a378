//! The error type of the client.

use crate::text::{decimal, decimal_digits};
use hyper::Error as TransportError;
use serde_json::Error as JsonError;
use std::io::Error as SystemError;
use vstd::prelude::*;
use vstd::string::StringExecFns;

verus! {

#[verifier::external_type_specification]
#[verifier::external_body]
pub struct ExJsonError(JsonError);

#[verifier::external_type_specification]
#[verifier::external_body]
pub struct ExTransportError(TransportError);

#[verifier::external_type_specification]
#[verifier::external_body]
pub struct ExSystemError(SystemError);

/// What can go wrong with a REST call.
#[derive(Debug)]
pub enum Error {
    /// The HTTP client could not be created.
    HttpClientError,
    /// The base URL or the URL of a request does not parse.
    UrlError,
    /// The data of a request could not be written as JSON.
    SerializeParseError(JsonError),
    /// The body of a response could not be read as JSON; the body is kept.
    DeserializeParseError(JsonError, String),
    /// The request could not be put together.
    RequestError,
    /// The transport failed.
    HyperError(TransportError),
    /// An I/O operation failed.
    IoError(SystemError),
    /// The server answered with a status outside 200..=299; its body is kept.
    HttpError(u16, String),
    /// The time limit ran out before the transport was done.
    TimeoutError,
    /// A header value is not a legal header value.
    InvalidValue,
}

/// `Display` of `serde_json::Error`: what the error says of itself.
#[verifier::external_body]
fn json_error_text(err: &JsonError) -> (text: String) {
    err.to_string()
}

/// `Display` of `hyper::Error`: what the error says of itself.
#[verifier::external_body]
fn hyper_error_text(err: &TransportError) -> (text: String) {
    err.to_string()
}

/// `Display` of `std::io::Error`: what the error says of itself.
#[verifier::external_body]
fn io_error_text(err: &SystemError) -> (text: String) {
    err.to_string()
}

impl Error {
    /// What kind of failure the error is, in words.
    pub open spec fn description(&self) -> Seq<char> {
        match self {
            Error::HttpClientError => "HTTP Client creation failed"@,
            Error::UrlError => "Failed to parse final URL"@,
            Error::SerializeParseError(_) => "Failed to serialize struct to JSON (in POST)"@,
            Error::DeserializeParseError(_, _) =>
                "Failed to deserialize data to struct (in GET or POST)"@,
            Error::RequestError => "Failed to make the outgoing request"@,
            Error::HyperError(_) => "Failed to make the outgoing request due to Hyper error"@,
            Error::IoError(_) => "Failed to make the outgoing request due to IO error"@,
            Error::HttpError(_, _) => "Server returned non-success status"@,
            Error::TimeoutError => "Request has timed out"@,
            Error::InvalidValue => "Invalid parameter value"@,
        }
    }

    /// Whether the message of the error has a detail: what the error that it carries
    /// says of itself.
    pub open spec fn has_detail(&self) -> bool {
        self is SerializeParseError || self is DeserializeParseError || self is HyperError
            || self is IoError
    }

    /// Whether `detail` is what the error that this error carries has said of itself.
    pub closed spec fn is_detail(&self, detail: Seq<char>) -> bool {
        match self {
            Error::SerializeParseError(err) => exists|said: String|
                said@ == detail && call_ensures(json_error_text, (err,), said),
            Error::DeserializeParseError(err, _) => exists|said: String|
                said@ == detail && call_ensures(json_error_text, (err,), said),
            Error::HyperError(err) => exists|said: String|
                said@ == detail && call_ensures(hyper_error_text, (err,), said),
            Error::IoError(err) => exists|said: String|
                said@ == detail && call_ensures(io_error_text, (err,), said),
            _ => false,
        }
    }

    /// What kind of failure the error is, in words.
    pub fn describe(&self) -> (words: &'static str)
        ensures
            words@ == self.description(),
    {
        match self {
            Error::HttpClientError => "HTTP Client creation failed",
            Error::UrlError => "Failed to parse final URL",
            Error::SerializeParseError(_) => "Failed to serialize struct to JSON (in POST)",
            Error::DeserializeParseError(_, _) =>
                "Failed to deserialize data to struct (in GET or POST)",
            Error::RequestError => "Failed to make the outgoing request",
            Error::HyperError(_) => "Failed to make the outgoing request due to Hyper error",
            Error::IoError(_) => "Failed to make the outgoing request due to IO error",
            Error::HttpError(_, _) => "Server returned non-success status",
            Error::TimeoutError => "Request has timed out",
            Error::InvalidValue => "Invalid parameter value",
        }
    }

    /// The error as a line of text: its description, and after a colon what the error
    /// that it carries says of itself, or the status and the body of the response.
    pub fn message(&self) -> (text: String)
        ensures
            match self {
                Error::HttpError(status, body) => text@ == self.description() + ": HTTP status "@
                    + decimal_digits(*status as nat) + ": "@ + body@,
                _ => if self.has_detail() {
                    exists|detail: Seq<char>|
                        self.is_detail(detail) && text@ == self.description() + ": "@ + detail
                } else {
                    text@ == self.description()
                },
            },
    {
        let mut text = String::from_str(self.describe());
        match self {
            Error::SerializeParseError(err) => {
                let said = json_error_text(err);
                text.append(": ");
                text.append(said.as_str());
                assert(self.is_detail(said@) && text@ == self.description() + ": "@ + said@);
            },
            Error::DeserializeParseError(err, _) => {
                let said = json_error_text(err);
                text.append(": ");
                text.append(said.as_str());
                assert(self.is_detail(said@) && text@ == self.description() + ": "@ + said@);
            },
            Error::HyperError(err) => {
                let said = hyper_error_text(err);
                text.append(": ");
                text.append(said.as_str());
                assert(self.is_detail(said@) && text@ == self.description() + ": "@ + said@);
            },
            Error::IoError(err) => {
                let said = io_error_text(err);
                text.append(": ");
                text.append(said.as_str());
                assert(self.is_detail(said@) && text@ == self.description() + ": "@ + said@);
            },
            Error::HttpError(status, body) => {
                text.append(": HTTP status ");
                text.append(decimal(*status as u64).as_str());
                text.append(": ");
                text.append(body.as_str());
            },
            _ => {},
        }
        text
    }
}

} // verus!
