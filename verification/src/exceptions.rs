//! The one shape that every failure takes: a status code, a message, an open
//! map of diagnostic values and an optional message identifier.

use crate::body::{utf8_error_describe, utf8_error_text};
use crate::json::{
    json_entries, json_error_describe, json_map_clone, json_map_new, json_map_text,
    json_object_text,
};
use crate::status::{canonical_reason, canonical_reason_text};
use crate::text::{decimal, decimal_digits};
use crate::transport::{hyper_error_describe, io_error_describe};
use crate::urls::{uri_error_describe, uri_error_text, url_error_describe, url_error_text};
use vstd::pervasive::unreached;
use vstd::prelude::*;
use vstd::std_specs::convert::FromSpecImpl;

verus! {

/// A failure, normalized.
pub struct HTTPException {
    code: u16,
    message: String,
    extra: serde_json::Map<String, serde_json::Value>,
    msgid: Option<String>,
}

/// What an [`HTTPException`] says, as mathematical values. `extra` holds, under
/// each key, the compact JSON text of the diagnostic value.
pub struct Fault {
    pub code: u16,
    pub message: Seq<char>,
    pub extra: Map<Seq<char>, Seq<char>>,
    pub msgid: Option<Seq<char>>,
}

impl View for HTTPException {
    type V = Fault;

    closed spec fn view(&self) -> Fault {
        Fault {
            code: self.code,
            message: self.message@,
            extra: json_entries(self.extra),
            msgid: text_of(self.msgid),
        }
    }
}

/// The message of an error that was given none.
pub open spec fn default_message() -> Seq<char> {
    "Internal server error"@
}

/// The characters of an optional string.
pub open spec fn text_of(s: Option<String>) -> Option<Seq<char>> {
    match s {
        Some(t) => Some(t@),
        None => None,
    }
}

/// The entries of an optional JSON object: none where there is no object.
pub open spec fn extra_of(m: Option<serde_json::Map<String, serde_json::Value>>) -> Map<
    Seq<char>,
    Seq<char>,
> {
    match m {
        Some(x) => json_entries(x),
        None => Map::empty(),
    }
}

/// The failure that carries only a message: code 500, no diagnostic values, no
/// identifier.
pub open spec fn internal_fault(message: Seq<char>) -> Fault {
    Fault { code: 500, message, extra: Map::empty(), msgid: None }
}

/// The line that [`HTTPException::to_string`] writes.
pub open spec fn display_text(f: Fault) -> Seq<char> {
    "Error "@ + decimal_digits(f.code as nat) + ": "@ + f.message + " (extra="@
        + json_object_text(f.extra) + ")"@
}

/// The line that [`HTTPException::debug_text`] writes.
pub open spec fn debug_text_of(f: Fault) -> Seq<char> {
    "HttpError<code="@ + decimal_digits(f.code as nat) + ", message='"@ + f.message + "'>"@
}

impl HTTPException {
    /// Builds an error from its parts. A missing message becomes
    /// "Internal server error", a missing map the empty one.
    pub fn new(
        code: u16,
        message: Option<String>,
        extra: Option<serde_json::Map<String, serde_json::Value>>,
        msgid: Option<String>,
    ) -> (e: HTTPException)
        ensures
            e@ == (Fault {
                code,
                message: match text_of(message) {
                    Some(m) => m,
                    None => default_message(),
                },
                extra: extra_of(extra),
                msgid: text_of(msgid),
            }),
    {
        let message: String = match message {
            Some(m) => m,
            None => "Internal server error".to_owned(),
        };
        let extra: serde_json::Map<String, serde_json::Value> = match extra {
            Some(x) => x,
            None => json_map_new(),
        };
        HTTPException { code, message, extra, msgid }
    }

    /// Builds an error for an HTTP status. Without a message of its own it
    /// takes the status's canonical reason phrase, so a status without one
    /// needs a message.
    pub fn from_hyper(
        code: u16,
        message: Option<String>,
        extra: Option<serde_json::Map<String, serde_json::Value>>,
        msgid: Option<String>,
    ) -> (e: HTTPException)
        requires
            message is None ==> canonical_reason_text(code) is Some,
        ensures
            e@ == (Fault {
                code,
                message: match text_of(message) {
                    Some(m) => m,
                    None => canonical_reason_text(code)->Some_0,
                },
                extra: extra_of(extra),
                msgid: text_of(msgid),
            }),
    {
        let msg: String = match message {
            Some(m) => m,
            None => match canonical_reason(code) {
                Some(reason) => reason.to_owned(),
                None => unreached(),
            },
        };
        HTTPException::new(code, Some(msg), extra, msgid)
    }

    /// As [`HTTPException::from_hyper`], for any status: `None` where there is
    /// neither a message nor a canonical reason phrase to take.
    pub fn try_from_hyper(
        code: u16,
        message: Option<String>,
        extra: Option<serde_json::Map<String, serde_json::Value>>,
        msgid: Option<String>,
    ) -> (r: Option<HTTPException>)
        ensures
            r is Some <==> (message is Some || canonical_reason_text(code) is Some),
            r is Some ==> r->Some_0@ == (Fault {
                code,
                message: match text_of(message) {
                    Some(m) => m,
                    None => canonical_reason_text(code)->Some_0,
                },
                extra: extra_of(extra),
                msgid: text_of(msgid),
            }),
    {
        if message.is_none() && canonical_reason(code).is_none() {
            None
        } else {
            Some(HTTPException::from_hyper(code, message, extra, msgid))
        }
    }

    /// The status code.
    pub fn code(&self) -> (c: u16)
        ensures
            c == self@.code,
    {
        self.code
    }

    /// A copy of the message.
    pub fn message(&self) -> (m: String)
        ensures
            m@ == self@.message,
    {
        self.message.clone()
    }

    /// A copy of the diagnostic values.
    pub fn extra(&self) -> (x: serde_json::Map<String, serde_json::Value>)
        ensures
            json_entries(x) == self@.extra,
    {
        json_map_clone(&self.extra)
    }

    /// A copy of the message identifier.
    pub fn msgid(&self) -> (i: Option<String>)
        ensures
            text_of(i) == self@.msgid,
    {
        match &self.msgid {
            Some(s) => Some(s.clone()),
            None => None,
        }
    }

    /// The error as one line for a reader:
    /// `Error <code>: <message> (extra=<the diagnostic values as JSON>)`.
    /// Without diagnostic values the JSON is `{}`.
    pub fn to_string(&self) -> (s: String)
        ensures
            s@ == display_text(self@),
            self@.extra == (Map::<Seq<char>, Seq<char>>::empty()) ==> s@ == "Error "@
                + decimal_digits(self@.code as nat) + ": "@ + self@.message + " (extra={})"@,
    {
        let json: String = match json_map_text(&self.extra) {
            Ok(t) => t,
            Err(_) => unreached(),
        };
        let mut s: String = "Error ".to_owned();
        s.append(decimal(self.code).as_str());
        s.append(": ");
        s.append(self.message.as_str());
        s.append(" (extra=");
        s.append(json.as_str());
        s.append(")");
        proof {
            if self@.extra == Map::<Seq<char>, Seq<char>>::empty() {
                reveal_strlit(" (extra=");
                reveal_strlit("{}");
                reveal_strlit(")");
                reveal_strlit(" (extra={})");
                assert(" (extra="@ + "{}"@ + ")"@ =~= " (extra={})"@);
                assert(s@ =~= "Error "@ + decimal_digits(self@.code as nat) + ": "@
                    + self@.message + (" (extra="@ + "{}"@ + ")"@));
            }
        }
        s
    }

    /// The terse form for logs: `HttpError<code=<code>, message='<message>'>`.
    pub fn debug_text(&self) -> (s: String)
        ensures
            s@ == debug_text_of(self@),
    {
        let mut s: String = "HttpError<code=".to_owned();
        s.append(decimal(self.code).as_str());
        s.append(", message='");
        s.append(self.message.as_str());
        s.append("'>");
        s
    }
}

/// The error that stands for a bare HTTP status: its message is the canonical
/// reason phrase, or the default where the status has none.
impl From<u16> for HTTPException {
    fn from(code: u16) -> (e: HTTPException)
        ensures
            e@ == (Fault {
                code,
                message: match canonical_reason_text(code) {
                    Some(m) => m,
                    None => default_message(),
                },
                extra: Map::empty(),
                msgid: None,
            }),
    {
        let message: Option<String> = match canonical_reason(code) {
            Some(reason) => Some(reason.to_owned()),
            None => None,
        };
        HTTPException::new(code, message, None, None)
    }
}

/// A server that is no absolute URL: code 500, with the parser's message.
impl From<url::ParseError> for HTTPException {
    fn from(err: url::ParseError) -> (e: HTTPException)
        ensures
            e@ == internal_fault(url_error_text(err)),
    {
        HTTPException::new(500, Some(url_error_describe(&err)), None, None)
    }
}

/// Bytes that are no UTF-8: code 500, with the decoder's message.
impl From<core::str::Utf8Error> for HTTPException {
    fn from(err: core::str::Utf8Error) -> (e: HTTPException)
        ensures
            e@ == internal_fault(utf8_error_text(err)),
    {
        HTTPException::new(500, Some(utf8_error_describe(&err)), None, None)
    }
}

/// A failure of the operating system: code 500, with its description.
impl From<std::io::Error> for HTTPException {
    fn from(err: std::io::Error) -> (e: HTTPException)
        ensures
            e@ == internal_fault(e@.message),
    {
        HTTPException::new(500, Some(io_error_describe(&err)), None, None)
    }
}

/// A failure of the transport: code 500, with its description.
impl From<hyper::Error> for HTTPException {
    fn from(err: hyper::Error) -> (e: HTTPException)
        ensures
            e@ == internal_fault(e@.message),
    {
        HTTPException::new(500, Some(hyper_error_describe(&err)), None, None)
    }
}

/// A URL that is no request target: code 500, with the parser's message.
impl From<hyper::error::UriError> for HTTPException {
    fn from(err: hyper::error::UriError) -> (e: HTTPException)
        ensures
            e@ == internal_fault(uri_error_text(err)),
    {
        HTTPException::new(500, Some(uri_error_describe(&err)), None, None)
    }
}

/// A value that JSON cannot hold, or a text that is no JSON: code 500, with
/// the description of the error.
impl From<serde_json::Error> for HTTPException {
    fn from(err: serde_json::Error) -> (e: HTTPException)
        ensures
            e@ == internal_fault(e@.message),
    {
        HTTPException::new(500, Some(json_error_describe(&err)), None, None)
    }
}

// The conversions are specified by the contracts of `from` above, over the
// view. Two errors with one view need not be one value, so `from_spec` has
// nothing to pin.

impl FromSpecImpl<u16> for HTTPException {
    open spec fn obeys_from_spec() -> bool {
        false
    }

    open spec fn from_spec(code: u16) -> HTTPException {
        arbitrary()
    }
}

impl FromSpecImpl<url::ParseError> for HTTPException {
    open spec fn obeys_from_spec() -> bool {
        false
    }

    open spec fn from_spec(err: url::ParseError) -> HTTPException {
        arbitrary()
    }
}

impl FromSpecImpl<core::str::Utf8Error> for HTTPException {
    open spec fn obeys_from_spec() -> bool {
        false
    }

    open spec fn from_spec(err: core::str::Utf8Error) -> HTTPException {
        arbitrary()
    }
}

impl FromSpecImpl<std::io::Error> for HTTPException {
    open spec fn obeys_from_spec() -> bool {
        false
    }

    open spec fn from_spec(err: std::io::Error) -> HTTPException {
        arbitrary()
    }
}

impl FromSpecImpl<hyper::Error> for HTTPException {
    open spec fn obeys_from_spec() -> bool {
        false
    }

    open spec fn from_spec(err: hyper::Error) -> HTTPException {
        arbitrary()
    }
}

impl FromSpecImpl<hyper::error::UriError> for HTTPException {
    open spec fn obeys_from_spec() -> bool {
        false
    }

    open spec fn from_spec(err: hyper::error::UriError) -> HTTPException {
        arbitrary()
    }
}

impl FromSpecImpl<serde_json::Error> for HTTPException {
    open spec fn obeys_from_spec() -> bool {
        false
    }

    open spec fn from_spec(err: serde_json::Error) -> HTTPException {
        arbitrary()
    }
}

} // verus!
