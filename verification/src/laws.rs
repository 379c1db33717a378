//! Laws of the client: what follows, for every client and every request, from how
//! requests are put together.

use crate::headers::{header_entries, no_entries};
use crate::request::{
    body_sent, is_request_of, request_headers, request_uri, text_of, ClientView, Method, Request,
};
use crate::text::decimal_digits;
use crate::uri::{
    first_position, form_encode, form_encode_byte, form_unchanged, url_joined, with_pair,
    with_query,
};
use vstd::prelude::*;
use vstd::utf8::{encode_utf8, is_ascii_chars, is_ascii_chars_encode_utf8};

verus! {

/// Whether `c` is a character that the form encoding leaves as it is: an ASCII
/// letter or digit, or one of `*`, `-`, `.` and `_`.
pub open spec fn is_unreserved_char(c: char) -> bool {
    ('0' <= c <= '9') || ('A' <= c <= 'Z') || ('a' <= c <= 'z') || c == '*' || c == '-' || c
        == '.' || c == '_'
}

/// Whether `text` holds only characters that the form encoding leaves as they are.
pub open spec fn is_unreserved(text: Seq<char>) -> bool {
    forall|i: int| 0 <= i < text.len() ==> is_unreserved_char(#[trigger] text[i])
}

/// Whether all names and values of `query` hold only such characters.
pub open spec fn all_unreserved(query: Seq<(Seq<char>, Seq<char>)>) -> bool {
    forall|i: int|
        0 <= i < query.len() ==> is_unreserved((#[trigger] query[i]).0) && is_unreserved(
            query[i].1,
        )
}

/// Whether `c` stands nowhere in `text`.
pub open spec fn lacks(text: Seq<char>, c: char) -> bool {
    forall|i: int| 0 <= i < text.len() ==> #[trigger] text[i] != c
}

/// A pair as it stands in a query: name, `=`, value.
pub open spec fn pair_text(name: Seq<char>, value: Seq<char>) -> Seq<char> {
    name + seq!['='] + value
}

/// The pairs of `query`, each after a `&`.
pub open spec fn more_pairs_text(query: Seq<(Seq<char>, Seq<char>)>) -> Seq<char>
    decreases query.len(),
{
    if query.len() == 0 {
        Seq::empty()
    } else {
        seq!['&'] + pair_text(query[0].0, query[0].1) + more_pairs_text(query.drop_first())
    }
}

/// The query as it follows a URL: `?` and the pairs, joined by `&`; nothing for a
/// query without pairs.
pub open spec fn query_text(query: Seq<(Seq<char>, Seq<char>)>) -> Seq<char> {
    if query.len() == 0 {
        Seq::empty()
    } else {
        seq!['?'] + pair_text(query[0].0, query[0].1) + more_pairs_text(query.drop_first())
    }
}

proof fn lemma_first_position_bounds(text: Seq<char>, c: char)
    ensures
        0 <= first_position(text, c) <= text.len(),
        first_position(text, c) < text.len() ==> text[first_position(text, c)] == c,
        lacks(text, c) ==> first_position(text, c) == text.len(),
    decreases text.len(),
{
    if text.len() > 0 && text[0] != c {
        let rest = text.drop_first();
        lemma_first_position_bounds(rest, c);
        if lacks(text, c) {
            assert forall|i: int| 0 <= i < rest.len() implies #[trigger] rest[i] != c by {
                assert(text[i + 1] != c);
            }
        }
    } else if text.len() > 0 {
        if lacks(text, c) {
            assert(text[0] != c);
        }
    }
}

proof fn lemma_first_position_append(head: Seq<char>, tail: Seq<char>, c: char)
    ensures
        first_position(head, c) < head.len() ==> first_position(head + tail, c) == first_position(
            head,
            c,
        ),
        lacks(head, c) ==> first_position(head + tail, c) == head.len() + first_position(tail, c),
    decreases head.len(),
{
    lemma_first_position_bounds(head, c);
    if head.len() == 0 {
        assert(head + tail =~= tail);
    } else {
        assert((head + tail).drop_first() =~= head.drop_first() + tail);
        assert((head + tail)[0] == head[0]);
        if head[0] != c {
            lemma_first_position_append(head.drop_first(), tail, c);
            if lacks(head, c) {
                assert forall|i: int| 0 <= i < head.drop_first().len() implies
                    #[trigger] head.drop_first()[i] != c by {
                    assert(head[i + 1] != c);
                }
            }
        } else {
            if lacks(head, c) {
                assert(head[0] != c);
            }
        }
    }
}

proof fn lemma_form_encode_unchanged(bytes: Seq<u8>)
    requires
        forall|i: int| 0 <= i < bytes.len() ==> form_unchanged(#[trigger] bytes[i]),
    ensures
        form_encode(bytes).len() == bytes.len(),
        forall|i: int| 0 <= i < bytes.len() ==> form_encode(bytes)[i] == bytes[i] as char,
    decreases bytes.len(),
{
    if bytes.len() > 0 {
        let front = bytes.drop_last();
        assert forall|i: int| 0 <= i < front.len() implies form_unchanged(#[trigger] front[i]) by {
            assert(front[i] == bytes[i]);
        }
        lemma_form_encode_unchanged(front);
        assert(form_unchanged(bytes.last()));
        assert(form_encode_byte(bytes.last()) =~= seq![bytes.last() as char]);
        assert forall|i: int| 0 <= i < bytes.len() implies form_encode(bytes)[i]
            == bytes[i] as char by {
            if i < front.len() {
                assert(form_encode(front)[i] == front[i] as char);
                assert(front[i] == bytes[i]);
            }
        }
    }
}

/// The form encoding leaves text of unreserved characters as it is.
pub proof fn lemma_form_encode_unreserved(text: Seq<char>)
    requires
        is_unreserved(text),
    ensures
        form_encode(encode_utf8(text)) == text,
{
    assert(is_ascii_chars(text)) by {
        assert forall|i: int| 0 <= i < text.len() implies '\0' <= #[trigger] text[i]
            <= '\u{7f}' by {
            assert(is_unreserved_char(text[i]));
        }
    }
    is_ascii_chars_encode_utf8(text);
    let bytes = encode_utf8(text);
    assert forall|i: int| 0 <= i < bytes.len() implies form_unchanged(#[trigger] bytes[i]) by {
        assert(is_unreserved_char(text[i]));
        assert(text[i] as u8 == bytes[i]);
    }
    lemma_form_encode_unchanged(bytes);
    assert forall|i: int| 0 <= i < text.len() implies form_encode(bytes)[i] == text[i] by {
        assert(is_unreserved_char(text[i]));
        assert(text[i] as u8 == bytes[i]);
        assert((text[i] as u8) as char == text[i]);
    }
    assert(form_encode(bytes) =~= text);
}

proof fn lemma_pair_appended(url: Seq<char>, name: Seq<char>, value: Seq<char>, first: bool)
    requires
        lacks(url, '#'),
        first ==> lacks(url, '?'),
        !first ==> first_position(url, '?') + 1 < url.len(),
        is_unreserved(name),
        is_unreserved(value),
    ensures
        with_pair(url, name, value) == url + seq![if first {
            '?'
        } else {
            '&'
        }] + pair_text(name, value),
        lacks(with_pair(url, name, value), '#'),
        first_position(with_pair(url, name, value), '?') + 1 < with_pair(url, name, value).len(),
{
    lemma_first_position_bounds(url, '#');
    lemma_first_position_bounds(url, '?');
    lemma_form_encode_unreserved(name);
    lemma_form_encode_unreserved(value);
    let cut = first_position(url, '#');
    assert(url.take(cut) =~= url);
    assert(url.skip(cut) =~= Seq::<char>::empty());
    let tail = seq![if first {
        '?'
    } else {
        '&'
    }] + pair_text(name, value);
    let made = url + tail;
    assert(with_pair(url, name, value) =~= made);
    assert forall|i: int| 0 <= i < made.len() implies #[trigger] made[i] != '#' by {
        if i < url.len() {
            assert(url[i] != '#');
        } else if i == url.len() {
        } else if i < url.len() + 1 + name.len() {
            assert(is_unreserved_char(name[i - url.len() - 1]));
        } else if i == url.len() + 1 + name.len() {
        } else {
            assert(is_unreserved_char(value[i - url.len() - 2 - name.len()]));
        }
    }
    lemma_first_position_append(url, tail, '?');
    if first {
        assert(tail[0] == '?');
        assert(first_position(tail, '?') == 0);
    }
    assert(made =~= url + seq![if first {
        '?'
    } else {
        '&'
    }] + pair_text(name, value));
}

proof fn lemma_rest_unreserved(query: Seq<(Seq<char>, Seq<char>)>)
    requires
        all_unreserved(query),
        query.len() > 0,
    ensures
        is_unreserved(query[0].0),
        is_unreserved(query[0].1),
        all_unreserved(query.drop_first()),
{
    let rest = query.drop_first();
    assert(is_unreserved(query[0].0) && is_unreserved(query[0].1));
    assert forall|i: int| 0 <= i < rest.len() implies is_unreserved((#[trigger] rest[i]).0)
        && is_unreserved(rest[i].1) by {
        assert(rest[i] == query[i + 1]);
    }
}

proof fn lemma_more_pairs(url: Seq<char>, query: Seq<(Seq<char>, Seq<char>)>)
    requires
        lacks(url, '#'),
        first_position(url, '?') + 1 < url.len(),
        all_unreserved(query),
        with_query(url, query) is Some,
    ensures
        with_query(url, query) == Some(url + more_pairs_text(query)),
    decreases query.len(),
{
    if query.len() == 0 {
        assert(url + more_pairs_text(query) =~= url);
    } else {
        lemma_rest_unreserved(query);
        lemma_pair_appended(url, query[0].0, query[0].1, false);
        let next = with_pair(url, query[0].0, query[0].1);
        lemma_more_pairs(next, query.drop_first());
        assert(next + more_pairs_text(query.drop_first()) =~= url + more_pairs_text(query));
    }
}

/// Query pairs follow the URL in their order: where a URL without query and fragment
/// takes the pairs of a query whose names and values hold only unreserved characters,
/// the result is the URL, then `?`, then the pairs as `name=value`, joined by `&`.
pub proof fn law_query_follows_in_order(url: Seq<char>, query: Seq<(Seq<char>, Seq<char>)>)
    requires
        lacks(url, '?'),
        lacks(url, '#'),
        all_unreserved(query),
        with_query(url, query) is Some,
    ensures
        with_query(url, query) == Some(url + query_text(query)),
{
    if query.len() == 0 {
        assert(url + query_text(query) =~= url);
    } else {
        lemma_rest_unreserved(query);
        lemma_pair_appended(url, query[0].0, query[0].1, true);
        let next = with_pair(url, query[0].0, query[0].1);
        lemma_more_pairs(next, query.drop_first());
        assert(next + more_pairs_text(query.drop_first()) =~= url + query_text(query));
    }
}

/// The URL of a request is the path joined to the base, followed by the query: where
/// the joined URL has no query and no fragment of its own and the names and values of
/// the query hold only unreserved characters, a request that can be made goes to the
/// joined URL, then `?`, then the pairs as `name=value` in their order, joined by `&`.
pub proof fn law_request_url(
    base: Seq<char>,
    path: Seq<char>,
    query: Seq<(Seq<char>, Seq<char>)>,
    joined: Seq<char>,
)
    requires
        url_joined(base, path) == Some(joined),
        lacks(joined, '?'),
        lacks(joined, '#'),
        all_unreserved(query),
        request_uri(base, path, Some(query)) is Some,
    ensures
        request_uri(base, path, Some(query)) == Some(joined + query_text(query)),
        request_uri(base, path, None) is Some ==> request_uri(base, path, None) == Some(joined),
{
    law_query_follows_in_order(joined, query);
}

proof fn lemma_own_names_differ()
    ensures
        "content-length"@.len() == 14,
        "content-type"@.len() == 12,
        "authorization"@.len() == 13,
        "user-agent"@.len() == 10,
        "null"@.len() == 4,
{
    reveal_strlit("content-length");
    reveal_strlit("content-type");
    reveal_strlit("authorization");
    reveal_strlit("user-agent");
    reveal_strlit("null");
}

/// A body that is the text `null` is left out where such bodies are not sent: the
/// request then has no body, and no `Content-Length` and no `Content-Type` header
/// either, unless a custom header of that name is set.
pub proof fn law_null_body_left_out(client: ClientView)
    requires
        !client.send_null_body,
    ensures
        body_sent(client.send_null_body, Some("null"@)) is None,
        request_headers(client, body_sent(client.send_null_body, Some("null"@))).contains_key(
            "content-length"@,
        ) <==> client.headers.contains_key("content-length"@),
        request_headers(client, body_sent(client.send_null_body, Some("null"@))).contains_key(
            "content-type"@,
        ) <==> client.headers.contains_key("content-type"@),
{
    lemma_own_names_differ();
}

/// Any other body is sent, and so is the text `null` where such bodies are sent: the
/// request has the body, a `Content-Type` and a `Content-Length` header, and unless a
/// custom header of that name is set, these say JSON and the number of the body's
/// bytes.
pub proof fn law_body_sent(client: ClientView, body: Seq<char>)
    requires
        client.send_null_body || body != "null"@,
    ensures
        body_sent(client.send_null_body, Some(body)) == Some(body),
        request_headers(client, Some(body)).contains_key("content-length"@),
        request_headers(client, Some(body)).contains_key("content-type"@),
        !client.headers.contains_key("content-length"@) ==> request_headers(
            client,
            Some(body),
        )["content-length"@] == encode_utf8(decimal_digits(encode_utf8(body).len())),
        !client.headers.contains_key("content-type"@) ==> request_headers(
            client,
            Some(body),
        )["content-type"@] == encode_utf8("application/json"@),
{
    lemma_own_names_differ();
}

/// A custom header goes into every request, with the value that was set.
pub proof fn law_custom_header_sent(client: ClientView, sent: Option<Seq<char>>, name: Seq<char>)
    requires
        client.headers.contains_key(name),
    ensures
        request_headers(client, sent).contains_key(name),
        request_headers(client, sent)[name] == client.headers[name],
{
}

/// A request of a client without a custom `User-Agent` header names the library and
/// its version there.
pub proof fn law_default_user_agent(client: ClientView, sent: Option<Seq<char>>)
    requires
        !client.headers.contains_key("user-agent"@),
    ensures
        request_headers(client, sent).contains_key("user-agent"@),
        request_headers(client, sent)["user-agent"@] == encode_utf8("restson/1.5.0"@),
{
    lemma_own_names_differ();
}

/// A request of a client without custom headers has the headers of its body, the
/// credentials where they are set, the default `User-Agent`, and no others.
pub proof fn law_no_custom_headers(client: ClientView, sent: Option<Seq<char>>, name: Seq<char>)
    requires
        client.headers == no_entries(),
    ensures
        request_headers(client, sent).contains_key(name) <==> name == "user-agent"@ || (name
            == "authorization"@ && client.auth is Some) || (sent is Some && (name
            == "content-length"@ || name == "content-type"@)),
{
    lemma_own_names_differ();
}

/// Two requests that a client makes of the same method, path, query and body agree
/// in the method, the URL, the body and the headers.
pub proof fn law_same_request(
    client: ClientView,
    method: Method,
    path: Seq<char>,
    query: Option<Seq<(Seq<char>, Seq<char>)>>,
    body: Option<Seq<char>>,
    first: Request,
    second: Request,
)
    requires
        is_request_of(client, method, path, query, body, first),
        is_request_of(client, method, path, query, body, second),
    ensures
        first.method == second.method,
        first.uri@ == second.uri@,
        text_of(first.body) == text_of(second.body),
        header_entries(first.headers) == header_entries(second.headers),
{
}

} // verus!
