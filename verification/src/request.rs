//! What a request is made of, and what a client puts into it.

use crate::error::Error;
use crate::headers::{header_entries, header_single_valued, no_entries, HEADER_ROOM};
use crate::text::decimal_digits;
use crate::timeout::Timeout;
use crate::uri::{uri_accepted, url_joined, with_query};
use hyper::header::HeaderMap;
use vstd::prelude::*;
use vstd::utf8::encode_utf8;

verus! {

/// The HTTP method of a request.
#[derive(Clone, Copy, Debug, PartialEq, Eq, Structural)]
pub enum Method {
    /// `GET`
    Get,
    /// `POST`
    Post,
    /// `PUT`
    Put,
    /// `PATCH`
    Patch,
    /// `DELETE`
    Delete,
}

/// A request, ready for the transport.
#[derive(Debug)]
pub struct Request {
    /// The HTTP method.
    pub method: Method,
    /// The URL, which `hyper` accepts as the URI of a request.
    pub uri: String,
    /// The headers, one value under each name.
    pub headers: HeaderMap,
    /// The body, JSON text; `None` where the request has none.
    pub body: Option<String>,
}

/// What a client is configured with.
pub struct ClientView {
    /// The base URL, as the `url` crate writes it.
    pub base: Seq<char>,
    /// The value of the `Authorization` header, if credentials are set.
    pub auth: Option<Seq<char>>,
    /// The custom headers: names in lower case, with the bytes of their values.
    pub headers: Map<Seq<char>, Seq<u8>>,
    /// The time limit of a request.
    pub timeout: Timeout,
    /// Whether a body that is the JSON text `null` is sent.
    pub send_null_body: bool,
}

/// The text of an optional string.
pub open spec fn text_of(text: Option<String>) -> Option<Seq<char>> {
    match text {
        Some(given) => Some(given@),
        None => None,
    }
}

/// The body that a request carries: the one given, unless it is the text `null`
/// and such bodies are not sent.
pub open spec fn body_sent(send_null_body: bool, body: Option<Seq<char>>) -> Option<Seq<char>> {
    match body {
        Some(text) => if send_null_body || text != "null"@ {
            Some(text)
        } else {
            None
        },
        None => None,
    }
}

/// The headers that describe a body: its length in bytes and its type, JSON. None
/// where there is no body.
pub open spec fn content_headers(sent: Option<Seq<char>>) -> Map<Seq<char>, Seq<u8>> {
    match sent {
        Some(text) => no_entries().insert(
            "content-length"@,
            encode_utf8(decimal_digits(encode_utf8(text).len())),
        ).insert("content-type"@, encode_utf8("application/json"@)),
        None => no_entries(),
    }
}

/// The headers of a request: those of its body, then the credentials, then the
/// custom headers, each of which replaces what stands under its name, and last the
/// default `User-Agent`, where none stands there by then.
pub open spec fn request_headers(client: ClientView, sent: Option<Seq<char>>) -> Map<
    Seq<char>,
    Seq<u8>,
> {
    let content = content_headers(sent);
    let authorized = match client.auth {
        Some(value) => content.insert("authorization"@, encode_utf8(value)),
        None => content,
    };
    let custom = authorized.union_prefer_right(client.headers);
    if custom.contains_key("user-agent"@) {
        custom
    } else {
        custom.insert("user-agent"@, encode_utf8("restson/1.5.0"@))
    }
}

/// The URL of a request: the path joined to the base, with the pairs of the query
/// appended. `None` where the path cannot be joined, a pair does not fit, or `hyper`
/// does not accept the result as a URI.
pub open spec fn request_uri(
    base: Seq<char>,
    path: Seq<char>,
    query: Option<Seq<(Seq<char>, Seq<char>)>>,
) -> Option<Seq<char>> {
    match url_joined(base, path) {
        Some(joined) => {
            let full = match query {
                Some(pairs) => with_query(joined, pairs),
                None => Some(joined),
            };
            match full {
                Some(text) => if uri_accepted(text) {
                    Some(text)
                } else {
                    None
                },
                None => None,
            }
        },
        None => None,
    }
}

/// Whether `request` is the request that `client` makes of the method, the path, the
/// query and the body.
pub open spec fn is_request_of(
    client: ClientView,
    method: Method,
    path: Seq<char>,
    query: Option<Seq<(Seq<char>, Seq<char>)>>,
    body: Option<Seq<char>>,
    request: Request,
) -> bool {
    &&& request.method == method
    &&& Some(request.uri@) == request_uri(client.base, path, query)
    &&& text_of(request.body) == body_sent(client.send_null_body, body)
    &&& header_entries(request.headers) == request_headers(
        client,
        body_sent(client.send_null_body, body),
    )
    &&& header_single_valued(request.headers)
}

/// Whether `built` is what `client` makes of the method, the outcome of working out
/// the path, the query and the body: the error of the path where that failed,
/// `UrlError` where the URL cannot be made, and the request otherwise. Only of a
/// client with so many custom headers that the header map may refuse one can it be
/// `RequestError` in place of the request.
pub open spec fn is_outcome_of(
    client: ClientView,
    method: Method,
    path: Result<String, Error>,
    query: Option<Seq<(Seq<char>, Seq<char>)>>,
    body: Option<Seq<char>>,
    built: Result<Request, Error>,
) -> bool {
    match path {
        Err(err) => built == Err::<Request, Error>(err),
        Ok(text) => match request_uri(client.base, text@, query) {
            Some(_) => match built {
                Ok(request) => is_request_of(client, method, text@, query, body, request),
                Err(err) => err is RequestError && client.headers.len() + 3 >= HEADER_ROOM,
            },
            None => built matches Err(Error::UrlError),
        },
    }
}

} // verus!
