//! The client: its configuration, and the requests that it makes.

use crate::error::Error;
use crate::headers::{
    entries_legal, header_entries, header_map_clear, header_map_contains, header_map_insert,
    header_map_new, header_map_pairs, header_single_valued, header_value_accepts,
    is_header_name, is_header_name_char, is_header_value, is_header_value_byte,
    is_legal_header_name, lower_name, no_entries, HEADER_ROOM,
};
use crate::request::{content_headers, is_outcome_of, request_uri, text_of, ClientView, Method, Request};
use crate::text::{decimal, decimal_digits};
use crate::timeout::Timeout;
use crate::uri::{append_query, query_pairs, uri_accepts, url_join, url_parse, url_parsed, Query};
use hyper::header::HeaderMap;
use vstd::prelude::*;
use vstd::string::{StringExecFns, StringSliceAdditionalSpecFns};
use vstd::utf8::{encode_utf8, is_ascii_chars, is_ascii_chars_encode_utf8};

verus! {

/// The path of a resource.
///
/// A type that stands for a resource of a REST API gives, for each type of
/// parameters by which the resource is addressed, the path under the base URL
/// (`api/devices/1234`). An error is handed on to whoever asked for the request.
pub trait RestPath<T> {
    /// The path for the parameters `par`.
    fn get_path(par: T) -> Result<String, Error>;
}

/// The text of what base64 makes of `bytes`, in the standard alphabet and padded.
pub uninterp spec fn base64_text(bytes: Seq<u8>) -> Seq<char>;

/// Whether `c` is of the standard base64 alphabet, or the padding sign.
pub open spec fn is_base64_char(c: char) -> bool {
    ('A' <= c <= 'Z') || ('a' <= c <= 'z') || ('0' <= c <= '9') || c == '+' || c == '/' || c
        == '='
}

/// `base64::encode`: the base64 text of the bytes of `text`, which holds only
/// characters of the standard alphabet and the padding sign.
#[verifier::external_body]
fn base64_encode(text: &str) -> (encoded: String)
    ensures
        encoded@ == base64_text(text.spec_bytes()),
        forall|i: int| 0 <= i < encoded@.len() ==> is_base64_char(#[trigger] encoded@[i]),
{
    base64::encode(text)
}

/// The value of the `Authorization` header for the credentials: `Basic`, a space,
/// and the base64 text of user, colon and password.
pub open spec fn basic_auth(user: Seq<char>, pass: Seq<char>) -> Seq<char> {
    "Basic "@ + base64_text(encode_utf8(user + ":"@ + pass))
}

/// A query, if there is one, as a sequence of pairs of texts.
pub open spec fn query_of(query: Option<&Query<'_>>) -> Option<Seq<(Seq<char>, Seq<char>)>> {
    match query {
        Some(pairs) => Some(query_pairs(pairs)),
        None => None,
    }
}

/// Whether `name` is the name of one of the first `count` of `pairs`.
spec fn is_named(pairs: Seq<(String, Vec<u8>)>, count: int, name: Seq<char>) -> bool {
    exists|i: int| 0 <= i < count && (#[trigger] pairs[i]).0@ == name
}

/// Whether `c` is a printable ASCII character or a space.
pub open spec fn is_plain_char(c: char) -> bool {
    ' ' <= c <= '~'
}

/// Text of printable ASCII characters is a legal header value.
proof fn lemma_plain_text_is_value(text: Seq<char>)
    requires
        forall|i: int| 0 <= i < text.len() ==> is_plain_char(#[trigger] text[i]),
    ensures
        is_header_value(encode_utf8(text)),
{
    assert(is_ascii_chars(text));
    is_ascii_chars_encode_utf8(text);
    assert forall|i: int| 0 <= i < encode_utf8(text).len() implies is_header_value_byte(
        #[trigger] encode_utf8(text)[i],
    ) by {
        assert(is_plain_char(text[i]));
        assert(text[i] as u8 == encode_utf8(text)[i]);
    }
}

/// A decimal numeral is text of printable ASCII characters.
proof fn lemma_decimal_is_plain(n: nat)
    ensures
        forall|i: int|
            0 <= i < decimal_digits(n).len() ==> is_plain_char(#[trigger] decimal_digits(n)[i]),
    decreases n,
{
    if n >= 10 {
        lemma_decimal_is_plain(n / 10);
        let head = decimal_digits(n / 10);
        assert forall|i: int| 0 <= i < decimal_digits(n).len() implies is_plain_char(
            #[trigger] decimal_digits(n)[i],
        ) by {
            if i < head.len() {
                assert(is_plain_char(head[i]));
            }
        }
    }
}

/// Text of small letters, digits and hyphens is a header name in lower case.
proof fn lemma_small_text_is_name(name: Seq<char>)
    requires
        1 <= name.len() <= 65535,
        forall|i: int|
            0 <= i < name.len() ==> ('a' <= #[trigger] name[i] <= 'z') || name[i] == '-',
    ensures
        is_header_name(name),
        lower_name(name) == name,
{
    assert forall|i: int| 0 <= i < name.len() implies is_header_name_char(#[trigger] name[i]) by {
        assert(('a' <= name[i] <= 'z') || name[i] == '-');
    }
    assert(lower_name(name) =~= name);
}

/// The names and values that a client itself puts into a request are legal.
proof fn lemma_own_headers_legal()
    ensures
        is_header_name("content-length"@),
        lower_name("content-length"@) == "content-length"@,
        is_header_name("content-type"@),
        lower_name("content-type"@) == "content-type"@,
        is_header_name("authorization"@),
        lower_name("authorization"@) == "authorization"@,
        is_header_name("user-agent"@),
        lower_name("user-agent"@) == "user-agent"@,
        is_header_value(encode_utf8("application/json"@)),
        is_header_value(encode_utf8("restson/1.5.0"@)),
{
    reveal_strlit("content-length");
    reveal_strlit("content-type");
    reveal_strlit("authorization");
    reveal_strlit("user-agent");
    reveal_strlit("application/json");
    reveal_strlit("restson/1.5.0");
    lemma_small_text_is_name("content-length"@);
    lemma_small_text_is_name("content-type"@);
    lemma_small_text_is_name("authorization"@);
    lemma_small_text_is_name("user-agent"@);
    lemma_plain_text_is_value("application/json"@);
    lemma_plain_text_is_value("restson/1.5.0"@);
}

/// The settings with which a client is made.
#[derive(Clone, Copy, Debug)]
pub struct Builder {
    timeout: Timeout,
    send_null_body: bool,
}

impl Default for Builder {
    /// No time limit, and bodies that are the text `null` are sent.
    fn default() -> (made: Builder)
        ensures
            made.timeout_setting().unbounded_spec(),
            made.null_body_setting(),
    {
        Builder { timeout: Timeout::unbounded(), send_null_body: true }
    }
}

impl Builder {
    /// The time limit that the client will have.
    pub closed spec fn timeout_setting(self) -> Timeout {
        self.timeout
    }

    /// Whether the client will send a body that is the text `null`.
    pub closed spec fn null_body_setting(self) -> bool {
        self.send_null_body
    }

    /// Sets the time limit of a request. Without this there is none.
    pub fn timeout(self, timeout: Timeout) -> (made: Builder)
        ensures
            made.timeout_setting() == timeout,
            made.null_body_setting() == self.null_body_setting(),
    {
        Builder { timeout, send_null_body: self.send_null_body }
    }

    /// Sets whether a body that is the text `null` is sent. Without this it is.
    pub fn send_null_body(self, value: bool) -> (made: Builder)
        ensures
            made.timeout_setting() == self.timeout_setting(),
            made.null_body_setting() == value,
    {
        Builder { timeout: self.timeout, send_null_body: value }
    }

    /// Makes the client for the base URL `url`, with the settings of this builder.
    pub fn build(self, url: &str) -> (made: Result<RestClient, Error>)
        ensures
            url_parsed(url@) is Some <==> made is Ok,
            made matches Err(err) ==> err is UrlError,
            made matches Ok(client) ==> client@ == (ClientView {
                base: url_parsed(url@).unwrap(),
                auth: None,
                headers: no_entries(),
                timeout: self.timeout_setting(),
                send_null_body: self.null_body_setting(),
            }),
    {
        RestClient::with_builder(url, self)
    }
}

/// A REST client: a base URL and what goes into every request made under it.
pub struct RestClient {
    baseurl: String,
    auth: Option<String>,
    headers: HeaderMap,
    timeout: Timeout,
    send_null_body: bool,
}

impl View for RestClient {
    type V = ClientView;

    closed spec fn view(&self) -> ClientView {
        ClientView {
            base: self.baseurl@,
            auth: text_of(self.auth),
            headers: header_entries(self.headers),
            timeout: self.timeout,
            send_null_body: self.send_null_body,
        }
    }
}

impl RestClient {
    #[verifier::type_invariant]
    spec fn well_formed(self) -> bool {
        &&& url_parsed(self.baseurl@) == Some(self.baseurl@)
        &&& header_single_valued(self.headers)
        &&& header_entries(self.headers).dom().finite()
        &&& entries_legal(header_entries(self.headers))
        &&& self.auth matches Some(value) ==> is_header_value(encode_utf8(value@))
    }

    /// Makes a client for the base URL `url`, without time limit, and which sends a
    /// body that is the text `null`.
    pub fn new(url: &str) -> (made: Result<RestClient, Error>)
        ensures
            url_parsed(url@) is Some <==> made is Ok,
            made matches Err(err) ==> err is UrlError,
            made matches Ok(client) ==> client@.base == url_parsed(url@).unwrap() && client@.auth
                is None && client@.headers == no_entries() && client@.timeout.unbounded_spec()
                && client@.send_null_body,
    {
        RestClient::with_builder(url, RestClient::builder())
    }

    /// The settings of a client made by [`RestClient::new`], to start from.
    pub fn builder() -> (made: Builder)
        ensures
            made.timeout_setting().unbounded_spec(),
            made.null_body_setting(),
    {
        Builder::default()
    }

    /// Makes the client for the base URL `url`, with the settings of `builder`.
    pub fn with_builder(url: &str, builder: Builder) -> (made: Result<RestClient, Error>)
        ensures
            url_parsed(url@) is Some <==> made is Ok,
            made matches Err(err) ==> err is UrlError,
            made matches Ok(client) ==> client@ == (ClientView {
                base: url_parsed(url@).unwrap(),
                auth: None,
                headers: no_entries(),
                timeout: builder.timeout_setting(),
                send_null_body: builder.null_body_setting(),
            }),
    {
        match url_parse(url) {
            Ok(baseurl) => {
                let headers = header_map_new();
                Ok(
                    RestClient {
                        baseurl,
                        auth: None,
                        headers,
                        timeout: builder.timeout,
                        send_null_body: builder.send_null_body,
                    },
                )
            },
            Err(_) => Err(Error::UrlError),
        }
    }

    /// The time limit of a request.
    pub fn timeout(&self) -> (limit: Timeout)
        ensures
            limit == self@.timeout,
    {
        self.timeout
    }

    /// The time within which the transport has to be done; `None` where it may take
    /// as long as it needs.
    pub fn time_limit(&self) -> (limit: Option<Timeout>)
        ensures
            limit == if self@.timeout.unbounded_spec() {
                None
            } else {
                Some(self@.timeout)
            },
    {
        if self.timeout.is_unbounded() {
            None
        } else {
            Some(self.timeout)
        }
    }

    /// Whether a body that is the text `null` is sent.
    pub fn sends_null_body(&self) -> (sent: bool)
        ensures
            sent == self@.send_null_body,
    {
        self.send_null_body
    }

    /// Sets whether a body that is the text `null` is sent.
    pub fn set_send_null_body(&mut self, send_null: bool)
        ensures
            final(self)@ == (ClientView { send_null_body: send_null, ..old(self)@ }),
    {
        proof {
            use_type_invariant(&*self);
        }
        self.send_null_body = send_null;
    }

    /// Sets the credentials for HTTP Basic authentication.
    pub fn set_auth(&mut self, user: &str, pass: &str)
        ensures
            final(self)@ == (ClientView { auth: Some(basic_auth(user@, pass@)), ..old(self)@ }),
    {
        proof {
            use_type_invariant(&*self);
        }
        let mut credentials = user.to_owned();
        credentials.append(":");
        credentials.append(pass);
        let encoded = base64_encode(credentials.as_str());
        let mut value = String::from_str("Basic ");
        value.append(encoded.as_str());
        proof {
            reveal_strlit("Basic ");
            assert forall|i: int| 0 <= i < value@.len() implies is_plain_char(
                #[trigger] value@[i],
            ) by {
                if i >= 6 {
                    assert(is_base64_char(encoded@[i - 6]));
                }
            }
            lemma_plain_text_is_value(value@);
        }
        self.auth = Some(value);
    }

    /// Sets the time limit of a request.
    pub fn set_timeout(&mut self, timeout: Timeout)
        ensures
            final(self)@ == (ClientView { timeout: timeout, ..old(self)@ }),
    {
        proof {
            use_type_invariant(&*self);
        }
        self.timeout = timeout;
    }

    /// Sets a custom header, which goes into every request from now on. The value
    /// replaces what stood under the name, whatever the case of its letters.
    ///
    /// A value that is no legal header value is refused with `InvalidValue`. A legal
    /// value under a name that is no legal header name is refused with `RequestError`,
    /// and so is a header that the header map has no room for, which cannot happen
    /// while the client holds fewer than [`HEADER_ROOM`] headers. Where the header is
    /// refused, nothing changes.
    pub fn set_header(&mut self, name: &'static str, value: &str) -> (set: Result<(), Error>)
        ensures
            if !is_header_value(value.spec_bytes()) {
                set matches Err(Error::InvalidValue) && final(self)@ == old(self)@
            } else if !is_header_name(name@) {
                set matches Err(Error::RequestError) && final(self)@ == old(self)@
            } else {
                match set {
                    Ok(_) => final(self)@ == (ClientView {
                        headers: old(self)@.headers.insert(lower_name(name@), value.spec_bytes()),
                        ..old(self)@
                    }),
                    Err(err) => err is RequestError && final(self)@ == old(self)@
                        && old(self)@.headers.len() >= HEADER_ROOM,
                }
            },
    {
        proof {
            use_type_invariant(&*self);
        }
        if !header_value_accepts(value) {
            return Err(Error::InvalidValue);
        }
        if !is_legal_header_name(name) {
            return Err(Error::RequestError);
        }
        proof {
            let before = header_entries(self.headers);
            let key = lower_name(name@);
            assert(lower_name(key) =~= key);
            assert(is_header_name(key)) by {
                assert forall|i: int| 0 <= i < key.len() implies is_header_name_char(
                    #[trigger] key[i],
                ) by {
                    assert(is_header_name_char(name@[i]));
                }
            }
            let after = before.insert(key, value.spec_bytes());
            assert(entries_legal(after)) by {
                assert forall|other: Seq<char>| #[trigger] after.contains_key(other) implies
                    is_header_name(other) && lower_name(other) == other && is_header_value(
                    after[other],
                ) by {
                    if other != key {
                        assert(before.contains_key(other));
                    }
                }
            }
        }
        match header_map_insert(&mut self.headers, name, value.as_bytes()) {
            Ok(_) => Ok(()),
            Err(_) => Err(Error::RequestError),
        }
    }

    /// Removes all custom headers.
    pub fn clear_headers(&mut self)
        ensures
            final(self)@ == (ClientView { headers: no_entries(), ..old(self)@ }),
    {
        proof {
            use_type_invariant(&*self);
        }
        header_map_clear(&mut self.headers);
    }

    /// The URL of a request: `path` joined to the base URL, with the pairs of
    /// `params` appended to its query.
    pub fn make_uri(&self, path: &str, params: Option<&Query<'_>>) -> (made: Result<String, Error>)
        ensures
            match request_uri(self@.base, path@, query_of(params)) {
                Some(text) => made matches Ok(uri) && uri@ == text,
                None => made matches Err(Error::UrlError),
            },
    {
        let joined = match url_join(self.baseurl.as_str(), path) {
            Ok(joined) => joined,
            Err(_) => {
                return Err(Error::UrlError);
            },
        };
        let full = match params {
            Some(pairs) => match append_query(joined, pairs) {
                Ok(full) => full,
                Err(err) => {
                    return Err(err);
                },
            },
            None => joined,
        };
        if uri_accepts(full.as_str()) {
            Ok(full)
        } else {
            Err(Error::UrlError)
        }
    }

    /// The request for a resource whose path has been worked out: the error of the
    /// path where that failed, `UrlError` where the URL cannot be made, and otherwise
    /// the request with the method, the URL, the body and the headers that the
    /// client's configuration calls for. Where the header map refuses a header for
    /// want of room, which it cannot while the client holds fewer than
    /// [`HEADER_ROOM`] less three headers, the result is `RequestError`.
    pub fn build_request(
        &self,
        method: Method,
        path: Result<String, Error>,
        query: Option<&Query<'_>>,
        body: Option<String>,
    ) -> (built: Result<Request, Error>)
        ensures
            is_outcome_of(self@, method, path, query_of(query), text_of(body), built),
    {
        proof {
            use_type_invariant(self);
            lemma_own_headers_legal();
        }
        let resolved = match path {
            Ok(resolved) => resolved,
            Err(err) => {
                return Err(err);
            },
        };
        let uri = match self.make_uri(resolved.as_str(), query) {
            Ok(uri) => uri,
            Err(err) => {
                return Err(err);
            },
        };
        let sent = match body {
            Some(text) => {
                let null = String::from_str("null");
                if self.send_null_body || text != null {
                    Some(text)
                } else {
                    None
                }
            },
            None => None,
        };
        let mut headers = header_map_new();
        match &sent {
            Some(text) => {
                let length = decimal(text.as_str().as_bytes().len() as u64);
                proof {
                    lemma_decimal_is_plain(encode_utf8(text@).len());
                    lemma_plain_text_is_value(length@);
                }
                if header_map_insert(&mut headers, "content-length", length.as_str().as_bytes())
                    .is_err() {
                    return Err(Error::RequestError);
                }
                if header_map_insert(&mut headers, "content-type", "application/json".as_bytes())
                    .is_err() {
                    return Err(Error::RequestError);
                }
            },
            None => {},
        }
        assert(header_entries(headers) == content_headers(text_of(sent)));
        match &self.auth {
            Some(value) => {
                if header_map_insert(&mut headers, "authorization", value.as_str().as_bytes())
                    .is_err() {
                    return Err(Error::RequestError);
                }
            },
            None => {},
        }
        let ghost authorized = header_entries(headers);
        let ghost custom = header_entries(self.headers);
        assert(authorized.len() <= 3);
        let pairs = header_map_pairs(&self.headers);
        let mut done: usize = 0;
        while done < pairs.len()
            invariant
                done <= pairs.len(),
                path == Ok::<String, Error>(resolved),
                request_uri(self@.base, resolved@, query_of(query)) is Some,
                custom == self@.headers,
                pairs.len() == custom.len(),
                entries_legal(custom),
                authorized.dom().finite(),
                authorized.len() <= 3,
                forall|i: int|
                    0 <= i < pairs.len() ==> custom.contains_key((#[trigger] pairs[i]).0@),
                forall|i: int|
                    0 <= i < pairs.len() ==> custom[(#[trigger] pairs[i]).0@] == pairs[i].1@,
                header_single_valued(headers),
                header_entries(headers).dom().finite(),
                header_entries(headers).len() <= authorized.len() + done,
                forall|name: Seq<char>| #[trigger]
                    header_entries(headers).contains_key(name) <==> authorized.contains_key(name)
                        || is_named(pairs@, done as int, name),
                forall|name: Seq<char>| #[trigger]
                    header_entries(headers).contains_key(name) ==> header_entries(headers)[name]
                        == if is_named(pairs@, done as int, name) {
                        custom[name]
                    } else {
                        authorized[name]
                    },
            decreases pairs.len() - done,
        {
            let ghost before = header_entries(headers);
            let name = pairs[done].0.as_str();
            let value = pairs[done].1.as_slice();
            assert(custom.contains_key(pairs[done as int].0@));
            assert(pairs[done as int].0@ == name@);
            assert(lower_name(name@) == name@);
            assert(value@ == custom[name@]);
            if header_map_insert(&mut headers, name, value).is_err() {
                return Err(Error::RequestError);
            }
            assert(header_entries(headers) == before.insert(name@, value@));
            proof {
                assert forall|key: Seq<char>|
                    is_named(pairs@, done + 1, key) <==> key == name@ || is_named(
                        pairs@,
                        done as int,
                        key,
                    ) by {
                    if is_named(pairs@, done + 1, key) {
                        let i = choose|i: int| 0 <= i < done + 1 && (#[trigger] pairs@[i]).0@ == key;
                        if i != done {
                            assert(0 <= i < done && pairs@[i].0@ == key);
                        }
                    }
                    if key == name@ {
                        assert(pairs@[done as int].0@ == key);
                    }
                    if is_named(pairs@, done as int, key) {
                        let i = choose|i: int| 0 <= i < done && (#[trigger] pairs@[i]).0@ == key;
                        assert(0 <= i < done + 1 && pairs@[i].0@ == key);
                    }
                }
                assert forall|key: Seq<char>| #[trigger]
                    header_entries(headers).contains_key(key) <==> authorized.contains_key(key)
                        || is_named(pairs@, done + 1, key) by {
                    if key != name@ {
                        assert(header_entries(headers).contains_key(key) == before.contains_key(
                            key,
                        ));
                    }
                }
                assert forall|key: Seq<char>| #[trigger]
                    header_entries(headers).contains_key(key) implies header_entries(headers)[key]
                        == if is_named(pairs@, done + 1, key) {
                        custom[key]
                    } else {
                        authorized[key]
                    } by {
                    if key != name@ {
                        assert(before.contains_key(key));
                    }
                }
            }
            done = done + 1;
        }
        proof {
            assert forall|name: Seq<char>| custom.contains_key(name) implies is_named(
                pairs@,
                done as int,
                name,
            ) by {
                let i = choose|i: int| 0 <= i < pairs.len() && (#[trigger] pairs[i]).0@ == name;
                assert(0 <= i < done && pairs@[i].0@ == name);
            }
            assert forall|name: Seq<char>| is_named(pairs@, done as int, name) implies
                custom.contains_key(name) by {
                let i = choose|i: int| 0 <= i < done && (#[trigger] pairs@[i]).0@ == name;
                assert(custom.contains_key(pairs[i].0@));
            }
            assert(header_entries(headers) =~= authorized.union_prefer_right(custom));
        }
        if !header_map_contains(&headers, "user-agent") {
            if header_map_insert(&mut headers, "user-agent", "restson/1.5.0".as_bytes()).is_err() {
                return Err(Error::RequestError);
            }
        }
        Ok(Request { method, uri, headers, body: sent })
    }

    /// The request for the resource `T` with the parameters `params`: the resource is
    /// asked for the path of these parameters, and the result is what
    /// [`RestClient::build_request`] makes of what it gives.
    pub fn make_request<U, T: RestPath<U>>(
        &self,
        method: Method,
        params: U,
        query: Option<&Query<'_>>,
        body: Option<String>,
    ) -> (built: Result<Request, Error>)
        ensures
            exists|path: Result<String, Error>|
                call_ensures(T::get_path, (params,), path) && is_outcome_of(
                    self@,
                    method,
                    path,
                    query_of(query),
                    text_of(body),
                    built,
                ),
    {
        let path = T::get_path(params);
        let built = self.build_request(method, path, query, body);
        assert(call_ensures(T::get_path, (params,), path) && is_outcome_of(
            self@,
            method,
            path,
            query_of(query),
            text_of(body),
            built,
        ));
        built
    }
}

} // verus!
