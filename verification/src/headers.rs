//! Header sets of `hyper`, seen as maps from header names to raw values.

use vstd::prelude::*;
use vstd::utf8::encode_utf8;

verus! {

#[verifier::external_type_specification]
#[verifier::external_body]
pub struct ExHeaders(hyper::header::Headers);

/// What a header set holds: under the key of each header's name (see
/// [`header_key`]), the lines of its raw value, as bytes.
pub uninterp spec fn header_entries(h: hyper::header::Headers) -> Map<Seq<char>, Seq<Seq<u8>>>;

/// A letter of ASCII in lower case, any other character as it is.
pub open spec fn ascii_lower(c: char) -> char {
    if 'A' <= c && c <= 'Z' {
        ((c as u32) + 32) as char
    } else {
        c
    }
}

/// The key under which a header set keeps a name: header names differ only
/// where they differ beyond the case of ASCII letters.
pub open spec fn header_key(name: Seq<char>) -> Seq<char> {
    Seq::new(name.len(), |i: int| ascii_lower(name[i]))
}

/// The header sets `below` and `above` in one: where both hold a header, the
/// one from `above` stays.
pub open spec fn overlaid(
    below: Map<Seq<char>, Seq<Seq<u8>>>,
    above: Map<Seq<char>, Seq<Seq<u8>>>,
) -> Map<Seq<char>, Seq<Seq<u8>>> {
    below.union_prefer_right(above)
}

/// Where two header sets are overlaid, a header of the upper set wins, a
/// header that only the lower set holds stays, and no other header appears.
pub proof fn lemma_overlaid_priority(
    below: Map<Seq<char>, Seq<Seq<u8>>>,
    above: Map<Seq<char>, Seq<Seq<u8>>>,
    key: Seq<char>,
)
    ensures
        overlaid(below, above).contains_key(key) <==> below.contains_key(key)
            || above.contains_key(key),
        above.contains_key(key) ==> overlaid(below, above)[key] == above[key],
        !above.contains_key(key) && below.contains_key(key) ==> overlaid(below, above)[key]
            == below[key],
{
}

/// Two names that differ only in the case of ASCII letters have one key, and
/// a key is its own key.
pub proof fn lemma_header_key_ignores_case(a: Seq<char>, b: Seq<char>)
    requires
        a.len() == b.len(),
        forall|i: int| 0 <= i < a.len() ==> ascii_lower(#[trigger] a[i]) == ascii_lower(b[i]),
    ensures
        header_key(a) == header_key(b),
        header_key(header_key(a)) == header_key(a),
{
    assert(header_key(a) =~= header_key(b));
    assert(header_key(header_key(a)) =~= header_key(a));
}

/// The entries of an optional header set: none where there is no set.
pub open spec fn headers_of(h: Option<hyper::header::Headers>) -> Map<Seq<char>, Seq<Seq<u8>>> {
    match h {
        Some(x) => header_entries(x),
        None => Map::empty(),
    }
}

/// `hyper::header::Headers::new`: a set without headers.
#[verifier::external_body]
pub(crate) fn headers_new() -> (h: hyper::header::Headers)
    ensures
        header_entries(h) == (Map::<Seq<char>, Seq<Seq<u8>>>::empty()),
{
    hyper::header::Headers::new()
}

/// `hyper::header::Headers::set` with `hyper::header::ContentType::json()`:
/// the header `Content-Type` gets the one line `application/json`, in place
/// of any header whose name has the same key.
#[verifier::external_body]
pub(crate) fn headers_set_content_type_json(h: &mut hyper::header::Headers)
    ensures
        header_entries(*final(h)) == header_entries(*old(h)).insert(
            header_key("Content-Type"@),
            seq![encode_utf8("application/json"@)],
        ),
{
    h.set(hyper::header::ContentType::json())
}

/// `hyper::header::Headers::set` with `hyper::header::Accept` of the one
/// media type `hyper::mime::APPLICATION_JSON`, at full quality: the header
/// `Accept` gets the one line `application/json`, in place of any header whose
/// name has the same key.
#[verifier::external_body]
pub(crate) fn headers_set_accept_json(h: &mut hyper::header::Headers)
    ensures
        header_entries(*final(h)) == header_entries(*old(h)).insert(
            header_key("Accept"@),
            seq![encode_utf8("application/json"@)],
        ),
{
    h.set(hyper::header::Accept(vec![hyper::header::qitem(hyper::mime::APPLICATION_JSON)]))
}

/// `Extend::extend` of `hyper::header::Headers`, on the headers that
/// `hyper::header::Headers::iter` yields of `other`: each of them is copied
/// into `h`, in place of any header whose name has the same key.
#[verifier::external_body]
pub(crate) fn headers_extend(h: &mut hyper::header::Headers, other: &hyper::header::Headers)
    ensures
        header_entries(*final(h)) == overlaid(header_entries(*old(h)), header_entries(*other)),
{
    h.extend(other.iter())
}

} // verus!
