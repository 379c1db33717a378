//! The address of a request: the base URL, a path joined to it, and the query pairs
//! appended to that.
//!
//! URLs are parsed, joined and extended by the `url` crate and are kept here as text,
//! in the form in which that crate writes them. What parsing and joining return goes by
//! names; what appending a query pair returns is written out in [`with_pair`].

use crate::error::Error;
use crate::text::digit_char;
use vstd::prelude::*;
use vstd::utf8::encode_utf8;

verus! {

/// Query parameters: names with their values, in the order in which they are to
/// stand in the URL. A name may come more than once.
pub type Query<'a> = [(&'a str, &'a str)];

/// A query as a sequence of pairs of texts.
pub open spec fn query_pairs(query: &Query<'_>) -> Seq<(Seq<char>, Seq<char>)> {
    query@.map_values(|pair: (&str, &str)| (pair.0@, pair.1@))
}

/// Whether the form encoding leaves the byte `b` as it is.
pub open spec fn form_unchanged(b: u8) -> bool {
    b == 42 || b == 45 || b == 46 || (48 <= b <= 57) || (65 <= b <= 90) || b == 95 || (97 <= b
        <= 122)
}

/// The upper-case hexadecimal digit for `n`, for `n` below sixteen.
pub open spec fn hex_digit(n: nat) -> char {
    if n < 10 {
        digit_char(n)
    } else if n == 10 {
        'A'
    } else if n == 11 {
        'B'
    } else if n == 12 {
        'C'
    } else if n == 13 {
        'D'
    } else if n == 14 {
        'E'
    } else {
        'F'
    }
}

/// The form encoding of one byte: itself where it is left unchanged, `+` for a space,
/// and otherwise `%` with its two hexadecimal digits.
pub open spec fn form_encode_byte(b: u8) -> Seq<char> {
    if form_unchanged(b) {
        seq![b as char]
    } else if b == 32 {
        seq!['+']
    } else {
        seq!['%', hex_digit((b / 16) as nat), hex_digit((b % 16) as nat)]
    }
}

/// The form encoding (`application/x-www-form-urlencoded`) of `bytes`.
pub open spec fn form_encode(bytes: Seq<u8>) -> Seq<char>
    decreases bytes.len(),
{
    if bytes.len() == 0 {
        Seq::empty()
    } else {
        form_encode(bytes.drop_last()) + form_encode_byte(bytes.last())
    }
}

/// Where `c` first stands in `text`; the length of `text` where it does not.
pub open spec fn first_position(text: Seq<char>, c: char) -> int
    decreases text.len(),
{
    if text.len() == 0 {
        0
    } else if text[0] == c {
        0
    } else {
        1 + first_position(text.drop_first(), c)
    }
}

/// The URL `url` with the pair `name=value` appended to its query, both form
/// encoded. The pair goes before the fragment, if there is one. It follows a `?`
/// where the URL has no query yet, nothing where its query is empty, and a `&`
/// otherwise.
pub open spec fn with_pair(url: Seq<char>, name: Seq<char>, value: Seq<char>) -> Seq<char> {
    let cut = first_position(url, '#');
    let head = url.take(cut);
    let mark = first_position(head, '?');
    let lead = if mark == head.len() {
        seq!['?']
    } else if mark + 1 == head.len() {
        Seq::empty()
    } else {
        seq!['&']
    };
    head + lead + form_encode(encode_utf8(name)) + seq!['='] + form_encode(encode_utf8(value))
        + url.skip(cut)
}

/// Whether a pair can be appended to `url` without the result outgrowing what a URL
/// may measure: three times the bytes of all three texts, and three more, within
/// 32 bits.
pub open spec fn pair_fits(url: Seq<char>, name: Seq<char>, value: Seq<char>) -> bool {
    3 * (encode_utf8(url).len() + encode_utf8(name).len() + encode_utf8(value).len()) + 3
        <= u32::MAX
}

/// The URL `url` with all pairs of `query` appended in their order; `None` where one
/// of them does not fit.
pub open spec fn with_query(url: Seq<char>, query: Seq<(Seq<char>, Seq<char>)>) -> Option<
    Seq<char>,
>
    decreases query.len(),
{
    if query.len() == 0 {
        Some(url)
    } else if !pair_fits(url, query[0].0, query[0].1) {
        None
    } else {
        with_query(with_pair(url, query[0].0, query[0].1), query.drop_first())
    }
}

#[verifier::external_type_specification]
#[verifier::external_body]
pub struct ExUrlParseError(url::ParseError);

/// The text in which the `url` crate writes the URL that it parses from `text`;
/// `None` where it does not accept `text` as an absolute URL.
pub uninterp spec fn url_parsed(text: Seq<char>) -> Option<Seq<char>>;

/// The text of the URL that the `url` crate gets by parsing `base` and joining
/// `path` to it; `None` where it refuses either.
pub uninterp spec fn url_joined(base: Seq<char>, path: Seq<char>) -> Option<Seq<char>>;

/// Whether `hyper` accepts `text` as the URI of a request.
pub uninterp spec fn uri_accepted(text: Seq<char>) -> bool;

/// `Url::parse`, with the URL handed back as text. The text of a URL parses to
/// itself.
#[verifier::external_body]
pub(crate) fn url_parse(text: &str) -> (parsed: Result<String, url::ParseError>)
    ensures
        parsed is Ok <==> url_parsed(text@) is Some,
        parsed matches Ok(own) ==> url_parsed(text@) == Some(own@) && url_parsed(own@) == Some(
            own@,
        ),
{
    url::Url::parse(text).map(String::from)
}

/// `Url::join`, on a base given as text and with the URL handed back as text. The
/// text of a URL parses to itself.
#[verifier::external_body]
pub(crate) fn url_join(base: &str, path: &str) -> (joined: Result<String, url::ParseError>)
    ensures
        joined is Ok <==> url_joined(base@, path@) is Some,
        joined matches Ok(own) ==> url_joined(base@, path@) == Some(own@) && url_parsed(own@)
            == Some(own@),
{
    url::Url::parse(base)?.join(path).map(String::from)
}

/// `Url::query_pairs_mut` and `append_pair` of what it returns, on a URL given as
/// text and with the URL handed back as text: [`with_pair`] of the URL as parsed.
#[verifier::external_body]
pub(crate) fn url_append_pair(url: &str, name: &str, value: &str) -> (appended: Result<
    String,
    url::ParseError,
>)
    requires
        pair_fits(url@, name@, value@),
    ensures
        appended is Ok <==> url_parsed(url@) is Some,
        appended matches Ok(own) ==> own@ == with_pair(url_parsed(url@).unwrap(), name@, value@)
            && url_parsed(own@) == Some(own@),
{
    let mut parsed = url::Url::parse(url)?;
    parsed.query_pairs_mut().append_pair(name, value);
    Ok(parsed.into())
}

/// `Uri::from_str` of `hyper`, asked only whether it accepts.
#[verifier::external_body]
pub(crate) fn uri_accepts(text: &str) -> (accepted: bool)
    ensures
        accepted == uri_accepted(text@),
{
    text.parse::<hyper::Uri>().is_ok()
}

/// Whether the pair fits, computed.
fn fits(url: &str, name: &str, value: &str) -> (fit: bool)
    ensures
        fit == pair_fits(url@, name@, value@),
{
    let limit: usize = 0x5555_5554;
    let url_len = url.as_bytes().len();
    let name_len = name.as_bytes().len();
    let value_len = value.as_bytes().len();
    if url_len > limit || name_len > limit || value_len > limit {
        false
    } else {
        let sum: u64 = url_len as u64 + name_len as u64 + value_len as u64;
        sum <= 0x5555_5554
    }
}

/// Appends the pairs of `query` to `url`, in their order.
pub(crate) fn append_query(url: String, query: &Query<'_>) -> (extended: Result<String, Error>)
    requires
        url_parsed(url@) == Some(url@),
    ensures
        match with_query(url@, query_pairs(query)) {
            Some(text) => extended matches Ok(own) && own@ == text && url_parsed(text) == Some(
                text,
            ),
            None => extended matches Err(Error::UrlError),
        },
{
    let mut current = url;
    let mut done: usize = 0;
    assert(query_pairs(query).skip(0) =~= query_pairs(query));
    while done < query.len()
        invariant
            done <= query.len(),
            url_parsed(current@) == Some(current@),
            with_query(current@, query_pairs(query).skip(done as int)) == with_query(
                url@,
                query_pairs(query),
            ),
        decreases query.len() - done,
    {
        let (name, value) = query[done];
        proof {
            let rest = query_pairs(query).skip(done as int);
            assert(rest[0] == (name@, value@));
            assert(rest.drop_first() =~= query_pairs(query).skip(done as int + 1));
        }
        if !fits(current.as_str(), name, value) {
            return Err(Error::UrlError);
        }
        match url_append_pair(current.as_str(), name, value) {
            Ok(next) => {
                current = next;
            },
            Err(_) => {
                return Err(Error::UrlError);
            },
        }
        done = done + 1;
    }
    assert(query_pairs(query).skip(done as int).len() == 0);
    Ok(current)
}

} // verus!
