//! Failures of the exchange itself: errors of the operating system and of
//! `hyper`'s transport.

use vstd::prelude::*;

verus! {

#[verifier::external_type_specification]
#[verifier::external_body]
pub struct ExIoError(std::io::Error);

#[verifier::external_type_specification]
#[verifier::external_body]
pub struct ExHyperError(hyper::Error);

/// The `Display` text of a `std::io::Error`. For an error of the operating
/// system the wording is the machine's: nothing is claimed of the text.
#[verifier::external_body]
pub(crate) fn io_error_describe(e: &std::io::Error) -> (s: String) {
    format!("{}", e)
}

/// The `Display` text of a `hyper::Error`. It may be that of an I/O error:
/// nothing is claimed of the text.
#[verifier::external_body]
pub(crate) fn hyper_error_describe(e: &hyper::Error) -> (s: String) {
    format!("{}", e)
}

} // verus!
