//! Request targets: a base server, query parameters and a path, resolved by
//! the `url` crate and checked by `hyper`.

use crate::exceptions::{internal_fault, HTTPException};
use vstd::prelude::*;
use vstd::utf8::{decode_utf8, encode_utf8, encode_utf8_decode_utf8};

verus! {

#[verifier::external_type_specification]
#[verifier::external_body]
pub struct ExUrl(url::Url);

#[verifier::external_type_specification]
#[verifier::external_body]
pub struct ExUrlParseError(url::ParseError);

#[verifier::external_type_specification]
#[verifier::external_body]
pub struct ExUri(hyper::Uri);

#[verifier::external_type_specification]
#[verifier::external_body]
pub struct ExUriError(hyper::error::UriError);

/// A URL as the `url` crate keeps it: the bytes of its serialization, and the
/// two offsets between which its path lies. What stands before the path is
/// the scheme and the authority; what follows it is the query and the
/// fragment, each with its mark.
pub struct UrlParts {
    pub bytes: Seq<u8>,
    pub path_start: nat,
    pub path_end: nat,
}

impl UrlParts {
    /// The offsets lie in the serialization, in their order.
    pub open spec fn wf(self) -> bool {
        self.path_start <= self.path_end <= self.bytes.len()
    }

    /// Scheme and authority: the bytes before the path.
    pub open spec fn head(self) -> Seq<u8> {
        self.bytes.take(self.path_start as int)
    }

    /// The bytes of the path.
    pub open spec fn path(self) -> Seq<u8> {
        self.bytes.subrange(self.path_start as int, self.path_end as int)
    }

    /// Query and fragment: the bytes after the path.
    pub open spec fn tail(self) -> Seq<u8> {
        self.bytes.skip(self.path_end as int)
    }
}

/// What a parsed URL holds: the bytes of its serialization.
pub uninterp spec fn url_bytes(u: url::Url) -> Seq<u8>;

/// What a parsed URL holds: the offset at which its path starts.
pub uninterp spec fn url_path_start(u: url::Url) -> nat;

/// What a parsed URL holds: the offset at which its path ends, which is that
/// of its query, else that of its fragment, else the end.
pub uninterp spec fn url_path_end(u: url::Url) -> nat;

/// What `url::Url::parse` makes of `input`: the URL, or the text of the
/// error.
pub uninterp spec fn url_parse_spec(input: Seq<char>) -> Result<UrlParts, Seq<char>>;

/// The `Display` text of a `url::ParseError`.
pub uninterp spec fn url_error_text(e: url::ParseError) -> Seq<char>;

/// What follows the path of a URL after `params` were appended to its query,
/// in `application/x-www-form-urlencoded` syntax, where `tail` followed the
/// path before.
pub uninterp spec fn url_query_tail(tail: Seq<u8>, params: Seq<(Seq<char>, Seq<char>)>) -> Seq<
    u8,
>;

/// The path that `url::Url::set_path` writes for `path` into the URL with
/// the serialization `bytes`, whose path starts at `path_start`.
pub uninterp spec fn url_path_written(bytes: Seq<u8>, path_start: nat, path: Seq<char>) -> Seq<
    u8,
>;

/// What a `hyper::Uri` holds: the characters of the request target.
pub uninterp spec fn uri_text(u: hyper::Uri) -> Seq<char>;

/// What `hyper::Uri::from_str` makes of `text`: the request target, or the
/// text of the error.
pub uninterp spec fn uri_parse_spec(text: Seq<char>) -> Result<Seq<char>, Seq<char>>;

/// The `Display` text of a `hyper::error::UriError`.
pub uninterp spec fn uri_error_text(e: hyper::error::UriError) -> Seq<char>;

/// The parts of a parsed URL.
pub open spec fn parts_of(u: url::Url) -> UrlParts {
    UrlParts { bytes: url_bytes(u), path_start: url_path_start(u), path_end: url_path_end(u) }
}

/// The URL `p` with `params` appended to its query: nothing changes up to
/// the end of the path.
pub open spec fn with_query(p: UrlParts, params: Seq<(Seq<char>, Seq<char>)>) -> UrlParts {
    UrlParts {
        bytes: p.bytes.take(p.path_end as int) + url_query_tail(p.tail(), params),
        path_start: p.path_start,
        path_end: p.path_end,
    }
}

/// The URL `p` with its path set to `path`: nothing changes before the path
/// nor after it.
pub open spec fn with_path(p: UrlParts, path: Seq<char>) -> UrlParts {
    UrlParts {
        bytes: p.head() + url_path_written(p.bytes, p.path_start, path) + p.tail(),
        path_start: p.path_start,
        path_end: p.path_start + url_path_written(p.bytes, p.path_start, path).len(),
    }
}

/// `url::Url::parse`. The path of a parsed URL lies in its serialization.
#[verifier::external_body]
pub(crate) fn url_parse(input: &str) -> (r: Result<url::Url, url::ParseError>)
    ensures
        r is Ok <==> url_parse_spec(input@) is Ok,
        r is Ok ==> url_bytes(r->Ok_0) == url_parse_spec(input@)->Ok_0.bytes,
        r is Ok ==> url_path_start(r->Ok_0) == url_parse_spec(input@)->Ok_0.path_start,
        r is Ok ==> url_path_end(r->Ok_0) == url_parse_spec(input@)->Ok_0.path_end,
        r is Ok ==> url_path_start(r->Ok_0) <= url_path_end(r->Ok_0) <= url_bytes(r->Ok_0).len(),
        r is Err ==> url_parse_spec(input@)->Err_0 == url_error_text(r->Err_0),
{
    url::Url::parse(input)
}

/// The `Display` text of a `url::ParseError`: one fixed sentence per kind of
/// error.
#[verifier::external_body]
pub(crate) fn url_error_describe(e: &url::ParseError) -> (s: String)
    ensures
        s@ == url_error_text(*e),
{
    format!("{}", e)
}

/// `url::Url::as_str`: the serialization.
#[verifier::external_body]
pub(crate) fn url_as_str(u: &url::Url) -> (s: &str)
    ensures
        encode_utf8(s@) == url_bytes(*u),
{
    u.as_str()
}

/// `url::Url::path`: the serialization from the start of the path to the
/// query, else to the fragment, else to the end.
#[verifier::external_body]
pub(crate) fn url_path(u: &url::Url) -> (s: &str)
    ensures
        encode_utf8(s@) == parts_of(*u).path(),
{
    u.path()
}

/// `url::form_urlencoded::Serializer::extend_pairs` on
/// `url::Url::query_pairs_mut`: appends `params` to the query. Nothing is
/// touched up to the end of the path, and what follows it afterwards depends
/// on what followed it before and on `params`. The crate keeps 32-bit offsets
/// into the serialization and panics where one overflows. It writes at most a
/// `?`, and for each pair a `&`, a `=` and three bytes for each byte of the
/// name and of the value: the contract asks for that much room.
#[verifier::external_body]
pub(crate) fn url_extend_query(u: &mut url::Url, params: &Vec<(&str, &str)>)
    requires
        fits(url_bytes(*old(u)), 1 + query_cost(pairs_of(params@))),
    ensures
        url_bytes(*final(u)) == parts_of(*old(u)).bytes.take(url_path_end(*old(u)) as int)
            + url_query_tail(parts_of(*old(u)).tail(), pairs_of(params@)),
        url_path_start(*final(u)) == url_path_start(*old(u)),
        url_path_end(*final(u)) == url_path_end(*old(u)),
{
    u.query_pairs_mut().extend_pairs(params);
}

/// `url::Url::set_path`. It cuts the serialization where the path starts,
/// writes the new path, and puts back what followed the old one. What it
/// writes depends on the scheme, on whether the old path began with a slash,
/// and on `path`. It panics where the new serialization outgrows the crate's
/// 32-bit offsets. The new path takes at most a `/` and three bytes for each
/// byte of `path`: the contract asks for that much room.
#[verifier::external_body]
pub(crate) fn url_set_path(u: &mut url::Url, path: &str)
    requires
        fits(url_bytes(*old(u)), 3 * encode_utf8(path@).len() + 1),
    ensures
        url_bytes(*final(u)) == parts_of(*old(u)).head() + url_path_written(
            url_bytes(*old(u)),
            url_path_start(*old(u)),
            path@,
        ) + parts_of(*old(u)).tail(),
        url_path_start(*final(u)) == url_path_start(*old(u)),
        url_path_end(*final(u)) == url_path_start(*old(u)) + url_path_written(
            url_bytes(*old(u)),
            url_path_start(*old(u)),
            path@,
        ).len(),
{
    u.set_path(path)
}

/// `hyper::Uri::from_str`.
#[verifier::external_body]
pub(crate) fn uri_parse(text: &str) -> (r: Result<hyper::Uri, hyper::error::UriError>)
    ensures
        r is Ok <==> uri_parse_spec(text@) is Ok,
        r is Ok ==> uri_parse_spec(text@)->Ok_0 == uri_text(r->Ok_0),
        r is Err ==> uri_parse_spec(text@)->Err_0 == uri_error_text(r->Err_0),
{
    text.parse::<hyper::Uri>()
}

/// The `Display` text of a `hyper::error::UriError`: one fixed sentence per
/// kind of error.
#[verifier::external_body]
pub(crate) fn uri_error_describe(e: &hyper::error::UriError) -> (s: String)
    ensures
        s@ == uri_error_text(*e),
{
    format!("{}", e)
}

/// The pairs of a parameter list, as characters.
pub open spec fn pairs_of(params: Seq<(&str, &str)>) -> Seq<(Seq<char>, Seq<char>)> {
    Seq::new(params.len(), |i: int| (params[i].0@, params[i].1@))
}

/// The bytes that one pair can take in a query at most: each byte of the name
/// and of the value may become a three-byte escape, and the pair brings a `=`
/// and a separator.
pub open spec fn pair_cost(p: (Seq<char>, Seq<char>)) -> nat {
    3 * (encode_utf8(p.0).len() + encode_utf8(p.1).len()) + 2
}

/// The bytes that `params` can take in a query at most.
pub open spec fn query_cost(params: Seq<(Seq<char>, Seq<char>)>) -> nat
    decreases params.len(),
{
    if params.len() == 0 {
        0
    } else {
        query_cost(params.drop_last()) + pair_cost(params.last())
    }
}

/// Whether a serialization that grows by `extra` bytes stays within the
/// 4 GiB that the `url` crate can address.
pub open spec fn fits(bytes: Seq<u8>, extra: nat) -> bool {
    bytes.len() + extra <= u32::MAX
}

/// The cost of a list grows with each pair.
pub proof fn lemma_query_cost_prefix(params: Seq<(Seq<char>, Seq<char>)>, n: int)
    requires
        0 <= n <= params.len(),
    ensures
        query_cost(params.take(n)) <= query_cost(params),
    decreases params.len(),
{
    if n == params.len() {
        assert(params.take(n) =~= params);
    } else {
        assert(params.drop_last().take(n) =~= params.take(n));
        lemma_query_cost_prefix(params.drop_last(), n);
    }
}

/// The length of a string in bytes.
fn byte_len(s: &str) -> (n: usize)
    ensures
        n == encode_utf8(s@).len(),
{
    s.as_bytes().len()
}

/// Whether the parameters cost at most `room` bytes.
pub fn query_fits(params: &Vec<(&str, &str)>, room: u64) -> (b: bool)
    ensures
        b == (query_cost(pairs_of(params@)) <= room),
{
    let ghost all = pairs_of(params@);
    let mut left: u64 = room;
    let mut i: usize = 0;
    while i < params.len()
        invariant
            i <= params.len(),
            all == pairs_of(params@),
            left + query_cost(all.take(i as int)) == room,
        decreases params.len() - i,
    {
        let name: &str = params[i].0;
        let value: &str = params[i].1;
        let cost: u128 = 3 * (byte_len(name) as u128 + byte_len(value) as u128) + 2;
        proof {
            assert(all.take(i + 1).drop_last() =~= all.take(i as int));
            assert(all.take(i + 1).last() == all[i as int]);
            assert(cost == pair_cost(all[i as int]));
            lemma_query_cost_prefix(all, i + 1);
        }
        if cost > left as u128 {
            return false;
        }
        left = left - cost as u64;
        i = i + 1;
    }
    proof {
        assert(all.take(i as int) =~= all);
    }
    true
}

/// The path `path` appended to the path `base`, with one slash between the
/// two. An empty `path` leaves `base` as it is.
pub open spec fn joined_path(base: Seq<char>, path: Seq<char>) -> Seq<char> {
    if path.len() == 0 {
        base
    } else if path[0] == '/' {
        stem_of(base) + path
    } else {
        stem_of(base).push('/') + path
    }
}

/// A path without the slash that it may end in.
pub open spec fn stem_of(base: Seq<char>) -> Seq<char> {
    if base.len() > 0 && base.last() == '/' {
        base.drop_last()
    } else {
        base
    }
}

/// Appends `path` to `base`. See [`joined_path`].
pub fn join_paths(base: &str, path: &str) -> (joined: String)
    ensures
        joined@ == joined_path(base@, path@),
{
    if path.unicode_len() == 0 {
        return base.to_owned();
    }
    let n: usize = base.unicode_len();
    let mut joined: String = if n > 0 && base.get_char(n - 1) == '/' {
        proof {
            assert(base@.subrange(0, n - 1) =~= base@.drop_last());
        }
        base.substring_char(0, n - 1).to_owned()
    } else {
        base.to_owned()
    };
    if path.get_char(0) != '/' {
        joined.append("/");
        proof {
            reveal_strlit("/");
            assert(joined@ =~= stem_of(base@).push('/'));
        }
    }
    joined.append(path);
    joined
}

/// A joined path begins with the base, but for the slash that the base may
/// end in, and ends with the path; between the two stands one slash, the
/// path's own or a new one.
pub proof fn lemma_joined_path_shape(base: Seq<char>, path: Seq<char>)
    requires
        path.len() > 0,
    ensures
        stem_of(base).is_prefix_of(joined_path(base, path)),
        path.is_suffix_of(joined_path(base, path)),
        joined_path(base, path)[stem_of(base).len() as int] == '/',
        joined_path(base, path).len() == stem_of(base).len() + path.len() + (if path[0]
            == '/' {
            0nat
        } else {
            1nat
        }),
{
    let joined = joined_path(base, path);
    let stem = stem_of(base);
    assert(joined.subrange(0, stem.len() as int) =~= stem);
    assert(joined.subrange(joined.len() - path.len(), joined.len() as int) =~= path);
}

/// The URL `p` with `params`: `p` itself where there are none, and nothing
/// where the query would not fit.
pub open spec fn with_params(p: UrlParts, params: Option<Seq<(Seq<char>, Seq<char>)>>) -> Option<
    UrlParts,
> {
    match params {
        None => Some(p),
        Some(list) => if fits(p.bytes, 1 + query_cost(list)) {
            Some(with_query(p, list))
        } else {
            None
        },
    }
}

/// The URL `p` with `path` appended to its path: nothing where the new path
/// would not fit.
pub open spec fn with_appended(p: UrlParts, path: Seq<char>) -> Option<UrlParts> {
    let joined = joined_path(decode_utf8(p.path()), path);
    if fits(p.bytes, 3 * encode_utf8(joined).len() + 1) {
        Some(with_path(p, joined))
    } else {
        None
    }
}

/// The URL of a request: the server's URL, with the parameters added to its
/// query and the path appended to its path. `None` where it would outgrow what
/// the `url` crate can address; `Err` with the error's text where the server
/// is no absolute URL.
pub open spec fn resolved_url(
    server: Seq<char>,
    params: Option<Seq<(Seq<char>, Seq<char>)>>,
    path: Seq<char>,
) -> Option<Result<UrlParts, Seq<char>>> {
    match url_parse_spec(server) {
        Err(msg) => Some(Err(msg)),
        Ok(base) => match with_params(base, params) {
            None => None,
            Some(queried) => match with_appended(queried, path) {
                None => None,
                Some(whole) => Some(Ok(whole)),
            },
        },
    }
}

/// The request target: the resolved URL as `hyper` reads it, or the text of
/// the first error on the way to it.
pub open spec fn resolved_target(
    server: Seq<char>,
    params: Option<Seq<(Seq<char>, Seq<char>)>>,
    path: Seq<char>,
) -> Option<Result<Seq<char>, Seq<char>>> {
    match resolved_url(server, params, path) {
        None => None,
        Some(Err(msg)) => Some(Err(msg)),
        Some(Ok(whole)) => Some(uri_parse_spec(decode_utf8(whole.bytes))),
    }
}

/// The parameters of a request, as characters.
pub open spec fn params_of(params: Option<Vec<(&str, &str)>>) -> Option<Seq<(Seq<char>, Seq<char>)>> {
    match params {
        Some(p) => Some(pairs_of(p@)),
        None => None,
    }
}

/// The resolved URL is the server's up to the path: scheme, user, host and
/// port are the server's. Its path is what the `url` crate writes for the
/// server's path with the request's appended. After the path stand the
/// server's query and fragment, with the parameters appended to the query
/// where there are any.
pub proof fn lemma_resolved_url_shape(
    server: Seq<char>,
    params: Option<Seq<(Seq<char>, Seq<char>)>>,
    path: Seq<char>,
)
    requires
        url_parse_spec(server) is Ok,
        url_parse_spec(server)->Ok_0.wf(),
        resolved_url(server, params, path) is Some,
        resolved_url(server, params, path)->Some_0 is Ok,
    ensures
        ({
            let base = url_parse_spec(server)->Ok_0;
            let whole = resolved_url(server, params, path)->Some_0->Ok_0;
            let joined = joined_path(decode_utf8(base.path()), path);
            &&& whole.wf()
            &&& whole.head() == base.head()
            &&& whole.path() == url_path_written(
                with_params(base, params)->Some_0.bytes,
                base.path_start,
                joined,
            )
            &&& whole.tail() == match params {
                Some(list) => url_query_tail(base.tail(), list),
                None => base.tail(),
            }
        }),
{
    let base = url_parse_spec(server)->Ok_0;
    let queried = with_params(base, params)->Some_0;
    let whole = resolved_url(server, params, path)->Some_0->Ok_0;
    assert(queried.wf());
    assert(queried.head() =~= base.head());
    assert(queried.path() =~= base.path());
    match params {
        Some(list) => {
            assert(queried.tail() =~= url_query_tail(base.tail(), list));
        },
        None => {},
    }
    let written = url_path_written(queried.bytes, queried.path_start, joined_path(
        decode_utf8(queried.path()),
        path,
    ));
    assert(whole.bytes =~= queried.head() + written + queried.tail());
    assert(whole.head() =~= queried.head());
    assert(whole.path() =~= written);
    assert(whole.tail() =~= queried.tail());
}

/// Whether `u` can grow by `extra` bytes.
fn url_fits(u: &url::Url, extra: u128) -> (b: bool)
    ensures
        b == fits(url_bytes(*u), extra as nat),
{
    let len: usize = byte_len(url_as_str(u));
    extra <= 0xffff_ffff && len as u128 + extra <= 0xffff_ffff
}

/// Resolves the URL of a request. See [`resolved_url`].
pub fn resolve_url(server: &str, params: &Option<Vec<(&str, &str)>>, path: &str) -> (r: Option<
    Result<url::Url, HTTPException>,
>)
    ensures
        match resolved_url(server@, params_of(*params), path@) {
            None => r is None,
            Some(Err(msg)) => r is Some && r->Some_0 is Err && r->Some_0->Err_0@ == internal_fault(
                msg,
            ),
            Some(Ok(whole)) => r is Some && r->Some_0 is Ok && parts_of(r->Some_0->Ok_0) == whole,
        },
{
    let mut url: url::Url = match url_parse(server) {
        Ok(u) => u,
        Err(e) => {
            return Some(Err(HTTPException::from(e)));
        },
    };
    match params {
        Some(p) => {
            let len: usize = byte_len(url_as_str(&url));
            if len as u64 >= 0xffff_ffff || !query_fits(p, 0xffff_ffff - len as u64 - 1) {
                return None;
            }
            url_extend_query(&mut url, p);
        },
        None => {},
    }
    let base: &str = url_path(&url);
    proof {
        encode_utf8_decode_utf8(base@);
    }
    let joined: String = join_paths(base, path);
    if !url_fits(&url, 3 * (byte_len(joined.as_str()) as u128) + 1) {
        return None;
    }
    url_set_path(&mut url, joined.as_str());
    Some(Ok(url))
}

/// Resolves the target of a request. See [`resolved_target`].
pub fn resolve(server: &str, params: &Option<Vec<(&str, &str)>>, path: &str) -> (r: Option<
    Result<hyper::Uri, HTTPException>,
>)
    ensures
        match resolved_target(server@, params_of(*params), path@) {
            None => r is None,
            Some(Err(msg)) => r is Some && r->Some_0 is Err && r->Some_0->Err_0@ == internal_fault(
                msg,
            ),
            Some(Ok(text)) => r is Some && r->Some_0 is Ok && uri_text(r->Some_0->Ok_0) == text,
        },
{
    let url: url::Url = match resolve_url(server, params, path) {
        None => {
            return None;
        },
        Some(Err(e)) => {
            return Some(Err(e));
        },
        Some(Ok(u)) => u,
    };
    let text: &str = url_as_str(&url);
    proof {
        encode_utf8_decode_utf8(text@);
    }
    match uri_parse(text) {
        Ok(uri) => Some(Ok(uri)),
        Err(e) => Some(Err(HTTPException::from(e))),
    }
}

} // verus!
