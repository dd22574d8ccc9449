//! HTTP status codes and their reason phrases, as `hyper` knows them.

use vstd::prelude::*;

verus! {

/// The canonical reason phrase that `hyper` has for the status `code`, if it
/// has one ("Created" for 201).
pub uninterp spec fn canonical_reason_text(code: u16) -> Option<Seq<char>>;

/// `hyper::StatusCode::canonical_reason`, on the status that
/// `hyper::StatusCode::try_from` makes of `code`. A number that is no status
/// (below 100 or above 599) has no phrase, like a status that `hyper` has not
/// registered.
#[verifier::external_body]
pub(crate) fn canonical_reason(code: u16) -> (r: Option<&'static str>)
    ensures
        r is Some <==> canonical_reason_text(code) is Some,
        r is Some ==> canonical_reason_text(code) == Some(r->Some_0@),
{
    match hyper::StatusCode::try_from(code) {
        Ok(status) => status.canonical_reason(),
        Err(_) => None,
    }
}

} // verus!
