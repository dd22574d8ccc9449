//! The client: an immutable configuration, and the requests it prepares.

use crate::exceptions::{internal_fault, HTTPException};
use crate::headers::{
    header_entries, header_key, headers_extend, headers_new, headers_of, headers_set_accept_json,
    headers_set_content_type_json, overlaid,
};
use crate::urls::{
    params_of, parts_of, resolve, resolve_url, resolved_target, resolved_url,
    uri_text,
};
use vstd::prelude::*;
use vstd::utf8::encode_utf8;

verus! {

#[verifier::external_type_specification]
#[verifier::external_body]
pub struct ExMethod(hyper::Method);

/// The timeout, in seconds, of a client that was given none.
pub const DEFAULT_TIMEOUT: u64 = 10;

/// The configuration that every request of one client shares. It does not
/// change once it is built.
pub struct RESTClient {
    server: String,
    timeout: u64,
    headers: hyper::header::Headers,
}

/// What a [`RESTClient`] holds, as mathematical values.
pub struct ClientView {
    pub server: Seq<char>,
    pub timeout: u64,
    pub headers: Map<Seq<char>, Seq<Seq<u8>>>,
}

impl View for RESTClient {
    type V = ClientView;

    closed spec fn view(&self) -> ClientView {
        ClientView {
            server: self.server@,
            timeout: self.timeout,
            headers: header_entries(self.headers),
        }
    }
}

/// One request, ready to be sent: nothing in it is left to decide.
pub struct PreparedRequest {
    pub method: hyper::Method,
    pub uri: hyper::Uri,
    pub headers: hyper::header::Headers,
    pub body: String,
    pub timeout: u64,
}

/// What a [`PreparedRequest`] holds, as mathematical values.
pub struct RequestView {
    pub method: hyper::Method,
    pub target: Seq<char>,
    pub headers: Map<Seq<char>, Seq<Seq<u8>>>,
    pub body: Seq<char>,
    pub timeout: u64,
}

impl View for PreparedRequest {
    type V = RequestView;

    open spec fn view(&self) -> RequestView {
        RequestView {
            method: self.method,
            target: uri_text(self.uri),
            headers: header_entries(self.headers),
            body: self.body@,
            timeout: self.timeout,
        }
    }
}

/// The headers that every client starts from: it sends JSON and accepts JSON.
pub open spec fn default_headers() -> Map<Seq<char>, Seq<Seq<u8>>> {
    Map::<Seq<char>, Seq<Seq<u8>>>::empty().insert(
        "content-type"@,
        seq![encode_utf8("application/json"@)],
    ).insert("accept"@, seq![encode_utf8("application/json"@)])
}

/// The keys of the two default headers, as a header set keeps them.
proof fn lemma_default_keys()
    ensures
        header_key("Content-Type"@) == "content-type"@,
        header_key("Accept"@) == "accept"@,
{
    reveal_strlit("Content-Type");
    reveal_strlit("content-type");
    reveal_strlit("Accept");
    reveal_strlit("accept");
    assert(header_key("Content-Type"@) =~= "content-type"@);
    assert(header_key("Accept"@) =~= "accept"@);
}

/// The headers of a request in the order of their rank: those of the request
/// lie over those that the client was given, and these over the defaults. A
/// default is sent unless one of the two replaces it.
pub proof fn lemma_request_header_rank(
    of_client: Map<Seq<char>, Seq<Seq<u8>>>,
    of_request: Map<Seq<char>, Seq<Seq<u8>>>,
    key: Seq<char>,
)
    ensures
        ({
            let sent = overlaid(overlaid(default_headers(), of_client), of_request);
            &&& sent.contains_key("content-type"@)
            &&& sent.contains_key("accept"@)
            &&& of_request.contains_key(key) ==> sent[key] == of_request[key]
            &&& !of_request.contains_key(key) && of_client.contains_key(key) ==> sent[key]
                == of_client[key]
            &&& !of_request.contains_key(key) && !of_client.contains_key(key) ==> (
            sent.contains_key(key) <==> default_headers().contains_key(key))
            &&& !of_request.contains_key(key) && !of_client.contains_key(key)
                && default_headers().contains_key(key) ==> sent[key] == seq![
                encode_utf8("application/json"@),
            ]
        }),
{
    reveal_strlit("content-type");
    reveal_strlit("accept");
    assert(!("content-type"@ =~= "accept"@));
}

/// The value of an optional setting: `fallback` where it is not set.
pub open spec fn value_or(setting: Option<u64>, fallback: u64) -> u64 {
    match setting {
        Some(v) => v,
        None => fallback,
    }
}

/// The body that a payload makes: its JSON text, and nothing where there is
/// no payload.
pub open spec fn body_of(data: Option<Result<String, serde_json::Error>>) -> Seq<char> {
    match data {
        Some(Ok(text)) => text@,
        _ => Seq::empty(),
    }
}

/// The line that [`RESTClient::debug_text`] writes.
pub open spec fn client_debug_text(c: ClientView) -> Seq<char> {
    "RESTClient<server="@ + c.server + ">"@
}

impl RESTClient {
    /// A client for `server`. Its timeout is `timeout`, or ten seconds; its
    /// headers are the JSON defaults, overlaid with `headers`.
    pub fn new(server: &'static str, timeout: Option<u64>, headers: Option<
        hyper::header::Headers,
    >) -> (c: RESTClient)
        ensures
            c@ == (ClientView {
                server: server@,
                timeout: value_or(timeout, DEFAULT_TIMEOUT),
                headers: overlaid(default_headers(), headers_of(headers)),
            }),
    {
        let mut cliheaders: hyper::header::Headers = headers_new();
        headers_set_content_type_json(&mut cliheaders);
        headers_set_accept_json(&mut cliheaders);
        proof {
            lemma_default_keys();
            assert(header_entries(cliheaders) =~= default_headers());
        }
        match headers {
            Some(h) => {
                headers_extend(&mut cliheaders, &h);
            },
            None => {
                assert(header_entries(cliheaders) =~= overlaid(default_headers(), Map::empty()));
            },
        }
        RESTClient {
            server: server.to_owned(),
            timeout: match timeout {
                Some(t) => t,
                None => DEFAULT_TIMEOUT,
            },
            headers: cliheaders,
        }
    }

    /// The URL of a request, before `hyper` reads it as a target: the first
    /// step of [`RESTClient::prepare_request`], for a caller that has work of
    /// its own to do between the two. See [`resolved_url`].
    pub fn request_url(&self, path: &'static str, params: &Option<Vec<(&str, &str)>>) -> (r: Option<
        Result<url::Url, HTTPException>,
    >)
        ensures
            match resolved_url(self@.server, params_of(*params), path@) {
                None => r is None,
                Some(Err(msg)) => r is Some && r->Some_0 is Err && r->Some_0->Err_0@
                    == internal_fault(msg),
                Some(Ok(whole)) => r is Some && r->Some_0 is Ok && parts_of(r->Some_0->Ok_0)
                    == whole,
            },
    {
        resolve_url(self.server.as_str(), params, path)
    }

    /// Prepares one request, in the order in which failures count: the target
    /// (see [`resolved_target`]), then the payload.
    ///
    /// `data` is the payload as JSON text, or the error that serializing it
    /// gave; without a payload the body is empty. The headers are the client's,
    /// overlaid with those of the request. The timeout is that of the request,
    /// or else the client's.
    ///
    /// The result is `None` where the URL would outgrow what the `url` crate
    /// can address, and nothing is prepared.
    pub fn prepare_request(
        &self,
        method: hyper::Method,
        path: &'static str,
        params: Option<Vec<(&str, &str)>>,
        data: Option<Result<String, serde_json::Error>>,
        headers: Option<hyper::header::Headers>,
        timeout: Option<u64>,
    ) -> (r: Option<Result<PreparedRequest, HTTPException>>)
        ensures
            match resolved_target(self@.server, params_of(params), path@) {
                None => r is None,
                Some(Err(msg)) => r is Some && r->Some_0 is Err && r->Some_0->Err_0@
                    == internal_fault(msg),
                Some(Ok(target)) => r is Some && (if data is Some && data->Some_0 is Err {
                    r->Some_0 is Err && r->Some_0->Err_0@ == internal_fault(
                        r->Some_0->Err_0@.message,
                    )
                } else {
                    r->Some_0 is Ok && r->Some_0->Ok_0@ == (RequestView {
                        method,
                        target,
                        headers: overlaid(self@.headers, headers_of(headers)),
                        body: body_of(data),
                        timeout: value_or(timeout, self@.timeout),
                    })
                }),
            },
    {
        let uri: hyper::Uri = match resolve(self.server.as_str(), &params, path) {
            None => {
                return None;
            },
            Some(Err(e)) => {
                return Some(Err(e));
            },
            Some(Ok(uri)) => uri,
        };
        let mut merged: hyper::header::Headers = headers_new();
        headers_extend(&mut merged, &self.headers);
        assert(header_entries(merged) =~= self@.headers);
        match headers {
            Some(h) => {
                headers_extend(&mut merged, &h);
            },
            None => {
                assert(header_entries(merged) =~= overlaid(self@.headers, Map::empty()));
            },
        }
        let body: String = match data {
            Some(Ok(text)) => text,
            Some(Err(e)) => {
                return Some(Err(HTTPException::from(e)));
            },
            None => String::new(),
        };
        let timeout: u64 = match timeout {
            Some(t) => t,
            None => self.timeout,
        };
        Some(Ok(PreparedRequest { method, uri, headers: merged, body, timeout }))
    }

    /// The terse form for logs: `RESTClient<server=<server>>`.
    pub fn debug_text(&self) -> (s: String)
        ensures
            s@ == client_debug_text(self@),
    {
        let mut s: String = "RESTClient<server=".to_owned();
        s.append(self.server.as_str());
        s.append(">");
        s
    }
}

} // verus!
