//! Header names, header values and the header map.
//!
//! The header map is the one of the `http` crate, as `hyper` hands it on. Verus does
//! not look inside it: what it holds goes by the name [`header_entries`], and the
//! functions at the end of this file say, without proof, what the map's methods do to
//! those entries.

use hyper::header::{HeaderMap, HeaderName, HeaderValue, MaxSizeReached};
use vstd::prelude::*;
use vstd::string::{is_ascii_spec_bytes, StringSliceAdditionalSpecFns};

verus! {

/// A header map that holds fewer names than this is certain to take one more.
pub const HEADER_ROOM: usize = 4096;

/// Whether `c` may stand in a header name.
pub open spec fn is_header_name_char(c: char) -> bool {
    ('!' <= c <= '\'') || c == '*' || c == '+' || c == '-' || c == '.' || ('0' <= c <= '9') || ('A'
        <= c <= 'Z') || ('^' <= c <= 'z') || c == '|' || c == '~'
}

/// Whether `name` is a legal header name: between 1 and 65535 characters, each of
/// them a legal one.
pub open spec fn is_header_name(name: Seq<char>) -> bool {
    &&& 1 <= name.len() <= 65535
    &&& forall|i: int| 0 <= i < name.len() ==> is_header_name_char(#[trigger] name[i])
}

/// `c` in lower case, where it is an ASCII capital letter; `c` itself otherwise.
pub open spec fn lower_char(c: char) -> char {
    if 'A' <= c <= 'Z' {
        ((c as u32) + 32) as char
    } else {
        c
    }
}

/// `name` in lower case: the form under which the header map keeps it.
pub open spec fn lower_name(name: Seq<char>) -> Seq<char> {
    name.map_values(|c: char| lower_char(c))
}

/// Whether `b` may stand in a header value.
pub open spec fn is_header_value_byte(b: u8) -> bool {
    (b >= 32 && b != 127) || b == 9
}

/// Whether `bytes` is a legal header value.
pub open spec fn is_header_value(bytes: Seq<u8>) -> bool {
    forall|i: int| 0 <= i < bytes.len() ==> is_header_value_byte(#[trigger] bytes[i])
}

/// Whether every name in `entries` is a legal name in lower case and every value a
/// legal value.
pub open spec fn entries_legal(entries: Map<Seq<char>, Seq<u8>>) -> bool {
    forall|name: Seq<char>| #[trigger]
        entries.contains_key(name) ==> is_header_name(name) && lower_name(name) == name
            && is_header_value(entries[name])
}

/// The map without entries.
pub open spec fn no_entries() -> Map<Seq<char>, Seq<u8>> {
    Map::empty()
}

/// Whether the byte `b` may stand in a header name.
fn is_name_byte(b: u8) -> (legal: bool)
    ensures
        legal == is_header_name_char(b as char),
{
    (33 <= b && b <= 39) || b == 42 || b == 43 || b == 45 || b == 46 || (48 <= b && b <= 57) || (
    65 <= b && b <= 90) || (94 <= b && b <= 122) || b == 124 || b == 126
}

/// Whether `name` is a legal header name.
pub fn is_legal_header_name(name: &str) -> (legal: bool)
    ensures
        legal == is_header_name(name@),
{
    if !name.is_ascii() {
        proof {
            if is_header_name(name@) {
                assert forall|i: int| 0 <= i < name@.len() implies '\0' <= #[trigger] name@[i]
                    <= '\u{7f}' by {
                    assert(is_header_name_char(name@[i]));
                }
            }
        }
        return false;
    }
    let bytes = name.as_bytes();
    proof {
        is_ascii_spec_bytes(name);
    }
    if bytes.len() == 0 || bytes.len() > 65535 {
        return false;
    }
    let mut checked: usize = 0;
    while checked < bytes.len()
        invariant
            checked <= bytes.len(),
            bytes@.len() == name@.len(),
            forall|i: int| 0 <= i < name@.len() ==> name@[i] as u8 == #[trigger] bytes@[i],
            forall|i: int| 0 <= i < name@.len() ==> '\0' <= #[trigger] name@[i] <= '\u{7f}',
            forall|i: int| 0 <= i < checked ==> is_header_name_char(#[trigger] name@[i]),
        decreases bytes.len() - checked,
    {
        let b = bytes[checked];
        assert(name@[checked as int] as u8 == bytes@[checked as int]);
        assert((b as char) == name@[checked as int]);
        if !is_name_byte(b) {
            return false;
        }
        checked = checked + 1;
    }
    true
}

#[verifier::external_type_specification]
#[verifier::external_body]
#[verifier::reject_recursive_types(T)]
pub struct ExHeaderMap<T>(HeaderMap<T>);

#[verifier::external_type_specification]
#[verifier::external_body]
pub struct ExHeaderValue(HeaderValue);

#[verifier::external_type_specification]
#[verifier::external_body]
pub struct ExMaxSizeReached(MaxSizeReached);

/// What a header map holds: for each name, in lower case, the bytes of the first
/// value kept under it.
pub uninterp spec fn header_entries(map: HeaderMap) -> Map<Seq<char>, Seq<u8>>;

/// Whether a header map keeps exactly one value under each of its names.
pub uninterp spec fn header_single_valued(map: HeaderMap) -> bool;

/// `HeaderMap::new`: a map without entries.
#[verifier::external_body]
pub(crate) fn header_map_new() -> (map: HeaderMap)
    ensures
        header_entries(map) == no_entries(),
        header_single_valued(map),
{
    HeaderMap::new()
}

/// `HeaderMap::clear`: all entries leave the map.
#[verifier::external_body]
pub(crate) fn header_map_clear(map: &mut HeaderMap)
    ensures
        header_entries(*final(map)) == no_entries(),
        header_single_valued(*final(map)),
    no_unwind
{
    map.clear()
}

/// `HeaderValue::from_str`, asked only whether it accepts: it does where every byte of
/// the text is a legal header value byte.
#[verifier::external_body]
pub(crate) fn header_value_accepts(value: &str) -> (accepted: bool)
    ensures
        accepted == is_header_value(value.spec_bytes()),
{
    HeaderValue::from_str(value).is_ok()
}

/// `HeaderMap::try_insert`, with the name made from text and the value from bytes.
/// Where the map takes the entry, the value replaces whatever the map held under the
/// name in lower case, and the other entries stay. Where it refuses the entry for
/// want of room, nothing changes. A map that holds fewer than [`HEADER_ROOM`] names
/// takes it.
#[verifier::external_body]
pub(crate) fn header_map_insert(map: &mut HeaderMap, name: &str, value: &[u8]) -> (taken: Result<
    (),
    MaxSizeReached,
>)
    requires
        is_header_name(name@),
        is_header_value(value@),
    ensures
        header_entries(*old(map)).dom().finite() && header_entries(*old(map)).len() < HEADER_ROOM
            ==> taken is Ok,
        taken is Ok ==> header_entries(*final(map)) == header_entries(*old(map)).insert(
            lower_name(name@),
            value@,
        ),
        taken is Err ==> header_entries(*final(map)) == header_entries(*old(map)),
        header_single_valued(*old(map)) ==> header_single_valued(*final(map)),
    no_unwind
{
    let key = HeaderName::from_bytes(name.as_bytes()).unwrap();
    let content = HeaderValue::from_bytes(value).unwrap();
    map.try_insert(key, content).map(|_| ())
}

/// `HeaderMap::contains_key`: whether the map holds an entry under the name in lower
/// case.
#[verifier::external_body]
pub(crate) fn header_map_contains(map: &HeaderMap, name: &str) -> (found: bool)
    ensures
        is_header_name(name@) ==> found == header_entries(*map).contains_key(lower_name(name@)),
{
    map.contains_key(name)
}

/// `HeaderMap::iter`, collected as text and bytes: the entries of the map, each name
/// with a value kept under it. Every name of the map comes, and where the map keeps
/// one value under each name, every name comes once, with that value.
#[verifier::external_body]
pub(crate) fn header_map_pairs(map: &HeaderMap) -> (pairs: Vec<(String, Vec<u8>)>)
    ensures
        header_single_valued(*map) ==> pairs.len() == header_entries(*map).len(),
        forall|i: int|
            0 <= i < pairs.len() ==> header_entries(*map).contains_key((#[trigger] pairs[i]).0@),
        header_single_valued(*map) ==> forall|i: int|
            0 <= i < pairs.len() ==> header_entries(*map)[(#[trigger] pairs[i]).0@] == pairs[i].1@,
        forall|name: Seq<char>|
            header_entries(*map).contains_key(name) ==> exists|i: int|
                0 <= i < pairs.len() && (#[trigger] pairs[i]).0@ == name,
{
    map.iter().map(|(name, value)| (name.as_str().to_owned(), value.as_bytes().to_vec())).collect()
}

} // verus!
