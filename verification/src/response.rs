//! What comes back: the outcome of the transport, and the response made of it.

use crate::client::RestClient;
use crate::error::Error;
use hyper::header::HeaderMap;
use hyper::Error as TransportError;
use serde_json::Error as JsonError;
use vstd::prelude::*;
use vstd::utf8::{encode_utf8, valid_utf8};

verus! {

/// How the transport ended.
#[derive(Debug)]
pub enum TransportOutcome {
    /// The server answered: the status code, the headers and the whole body.
    Answered { status: u16, headers: HeaderMap, body: Vec<u8> },
    /// The transport failed.
    Failed(TransportError),
    /// The time limit ran out first.
    TimedOut,
}

/// What a call returns: a body, and the headers that the server sent.
#[derive(Debug)]
pub struct Response<T> {
    body: T,
    headers: HeaderMap,
}

/// Whether the status code says success: 200 to 299.
pub open spec fn is_success(status: u16) -> bool {
    200 <= status < 300
}

/// The text that lossy UTF-8 decoding makes of `bytes`.
pub uninterp spec fn utf8_lossy(bytes: Seq<u8>) -> Seq<char>;

/// Whether `text` is what lossy UTF-8 decoding makes of `bytes`; of bytes that are
/// UTF-8 that is the text which they encode.
pub open spec fn is_text_of(text: Seq<char>, bytes: Seq<u8>) -> bool {
    &&& text == utf8_lossy(bytes)
    &&& valid_utf8(bytes) ==> encode_utf8(text) == bytes
}

/// `String::from_utf8_lossy`, as an owned string: the bytes as text, with a
/// replacement character for what is no UTF-8. Of bytes that are UTF-8 the text is
/// the one that they encode.
#[verifier::external_body]
fn decode_lossy(bytes: &[u8]) -> (text: String)
    ensures
        text@ == utf8_lossy(bytes@),
        valid_utf8(bytes@) ==> encode_utf8(text@) == bytes@,
{
    String::from_utf8_lossy(bytes).into_owned()
}

/// `serde_json::from_str`: a value of `T` read from JSON text, or the parser's error.
#[verifier::external_body]
fn json_from_str<T: serde::de::DeserializeOwned>(text: &str) -> (read: Result<T, JsonError>) {
    serde_json::from_str::<T>(text)
}

/// Whether `read` is what reading the JSON text `text` as a `T` has given.
pub closed spec fn is_read_of<T: serde::de::DeserializeOwned>(
    text: Seq<char>,
    read: Result<T, JsonError>,
) -> bool {
    exists|given: &str| given@ == text && call_ensures(json_from_str::<T>, (given,), read)
}

/// Whether `run` is what a call makes of an outcome of the transport that is no
/// successful answer: `TimeoutError` of a time limit that ran out, its error of a
/// failed transport, and of an answer with a status outside 200 to 299 `HttpError`
/// with that status and the body as text. Of a successful answer `run` is no error.
pub open spec fn is_settled_as<B>(outcome: TransportOutcome, run: Result<B, Error>) -> bool {
    match outcome {
        TransportOutcome::TimedOut => run matches Err(Error::TimeoutError),
        TransportOutcome::Failed(err) => run == Err::<B, Error>(Error::HyperError(err)),
        TransportOutcome::Answered { status, headers, body } => if is_success(status) {
            run is Ok
        } else {
            run matches Err(Error::HttpError(code, text)) && code == status && is_text_of(
                text@,
                body@,
            )
        },
    }
}

impl<T> Response<T> {
    /// The body.
    pub closed spec fn inner(self) -> T {
        self.body
    }

    /// The headers that the server sent.
    pub closed spec fn header_map(self) -> HeaderMap {
        self.headers
    }

    /// Hands out the body.
    pub fn into_inner(self) -> (body: T)
        ensures
            body == self.inner(),
    {
        self.body
    }

    /// The headers that the server sent.
    pub fn headers(&self) -> (headers: &HeaderMap)
        ensures
            *headers == self.header_map(),
    {
        &self.headers
    }
}

impl<T> std::ops::Deref for Response<T> {
    type Target = T;

    fn deref(&self) -> (body: &T)
        ensures
            *body == self.inner(),
    {
        &self.body
    }
}

impl Response<String> {
    /// Whether `parsed` is what becomes of this response once `read` has been read
    /// from its body: the response with the value in place of the body, or the error
    /// of reading together with the body.
    pub open spec fn is_decoded_as<T>(
        self,
        read: Result<T, JsonError>,
        parsed: Result<Response<T>, Error>,
    ) -> bool {
        match read {
            Ok(value) => parsed matches Ok(response) && response.inner() == value
                && response.header_map() == self.header_map(),
            Err(err) => parsed == Err::<Response<T>, Error>(
                Error::DeserializeParseError(err, self.inner()),
            ),
        }
    }

    /// The response with the body replaced by what was read from it, or the error of
    /// reading it together with the body.
    pub fn decoded<T>(self, read: Result<T, JsonError>) -> (parsed: Result<Response<T>, Error>)
        ensures
            self.is_decoded_as(read, parsed),
    {
        match read {
            Ok(value) => Ok(Response { body: value, headers: self.headers }),
            Err(err) => Err(Error::DeserializeParseError(err, self.body)),
        }
    }

    /// Reads the body as JSON: the body is what is read, and the result is what
    /// [`Response::decoded`] makes of what reading gives.
    pub fn parse<T: serde::de::DeserializeOwned>(self) -> (parsed: Result<Response<T>, Error>)
        ensures
            exists|read: Result<T, JsonError>|
                is_read_of::<T>(self.inner()@, read) && self.is_decoded_as(read, parsed),
    {
        let text = self.body.as_str();
        let read = json_from_str::<T>(text);
        assert(is_read_of::<T>(self.body@, read)) by {
            assert(text@ == self.body@ && call_ensures(json_from_str::<T>, (text,), read));
        }
        let parsed = self.decoded(read);
        assert(is_read_of::<T>(self.inner()@, read) && self.is_decoded_as(read, parsed));
        parsed
    }
}

impl RestClient {
    /// Whether the status code says success: 200 to 299.
    pub fn status_is_success(status: u16) -> (success: bool)
        ensures
            success == is_success(status),
    {
        200 <= status && status < 300
    }

    /// What every call makes of the outcome of the transport, before it looks at the
    /// body of a successful answer: the headers and the bytes of the body, or the
    /// error.
    fn settle(outcome: TransportOutcome) -> (settled: Result<(HeaderMap, Vec<u8>), Error>)
        ensures
            is_settled_as(outcome, settled),
            match outcome {
                TransportOutcome::Answered { status, headers, body } => is_success(status)
                    ==> settled == Ok::<(HeaderMap, Vec<u8>), Error>((headers, body)),
                _ => true,
            },
    {
        match outcome {
            TransportOutcome::TimedOut => Err(Error::TimeoutError),
            TransportOutcome::Failed(err) => Err(Error::HyperError(err)),
            TransportOutcome::Answered { status, headers, body } => {
                if RestClient::status_is_success(status) {
                    Ok((headers, body))
                } else {
                    Err(Error::HttpError(status, decode_lossy(body.as_slice())))
                }
            },
        }
    }

    /// What a call that captures the body makes of the outcome of the transport.
    ///
    /// A time limit that ran out gives `TimeoutError`, a failed transport its error.
    /// An answer with a status outside 200 to 299 gives `HttpError` with that status
    /// and the body as text, decoded as UTF-8, lossily. Any other answer gives a
    /// response with the headers of the answer, and as its body the text of the body,
    /// decoded alike, after `wash` has been applied to it.
    pub fn run_request<W: Fn(String) -> String>(
        &self,
        outcome: TransportOutcome,
        wash: W,
    ) -> (run: Result<Response<String>, Error>)
        requires
            forall|text: String| call_requires(wash, (text,)),
        ensures
            is_settled_as(outcome, run),
            match (outcome, run) {
                (TransportOutcome::Answered { status, headers, body }, Ok(response)) =>
                    response.header_map() == headers && exists|raw: String|
                        is_text_of(raw@, body@) && call_ensures(wash, (raw,), response.inner()),
                _ => true,
            },
    {
        match RestClient::settle(outcome) {
            Ok((headers, body)) => {
                let text = decode_lossy(body.as_slice());
                let ghost raw = text;
                let washed = wash(text);
                assert(is_text_of(raw@, body@) && call_ensures(wash, (raw,), washed));
                Ok(Response { body: washed, headers })
            },
            Err(err) => Err(err),
        }
    }

    /// What a call that does not capture the body makes of the outcome of the
    /// transport: the same errors as [`RestClient::run_request`] gives, and for any
    /// other answer its headers alone. The body of such an answer is neither decoded
    /// nor washed.
    pub fn run_write(&self, outcome: TransportOutcome) -> (run: Result<Response<()>, Error>)
        ensures
            is_settled_as(outcome, run),
            match (outcome, run) {
                (TransportOutcome::Answered { status, headers, body }, Ok(response)) =>
                    response.header_map() == headers,
                _ => true,
            },
    {
        match RestClient::settle(outcome) {
            Ok((headers, _)) => Ok(Response { body: (), headers }),
            Err(err) => Err(err),
        }
    }
}

} // verus!
