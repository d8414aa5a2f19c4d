//! The parsed HTTP request and the upgrade-related questions asked of its
//! headers: is this a WebSocket upgrade, which subprotocols does the
//! client offer, and what accept value answers its key.
use vstd::prelude::*;

use crate::digest::{base64_encode, base64_of, sha1_digest, sha1_of};
use crate::headers::{spec_lookup, HeaderMap};
use crate::strutil::{lower_of, lowercase, spec_split_char, split_char};
use vstd::string::StringExecFns;

verus! {

/// The request methods the server recognises; only GET exists upstream.
#[derive(Debug, Clone, Copy, PartialEq, Eq, Structural)]
pub enum Method {
    GET,
}

/// The first line of a request: method, target URI and protocol version.
#[derive(Debug)]
pub struct RequestLine {
    method: Method,
    uri: String,
    version: String,
}

impl RequestLine {
    pub closed spec fn spec_method(self) -> Method {
        self.method
    }

    pub closed spec fn spec_uri(self) -> Seq<char> {
        self.uri@
    }

    pub closed spec fn spec_version(self) -> Seq<char> {
        self.version@
    }

    pub fn new(method: Method, uri: String, version: String) -> (r: RequestLine)
        ensures
            r.spec_method() == method,
            r.spec_uri() == uri@,
            r.spec_version() == version@,
    {
        RequestLine { method, uri, version }
    }

    pub fn get_method_and_uri(&self) -> (r: (&Method, &str))
        ensures
            *r.0 == self.spec_method(),
            r.1@ == self.spec_uri(),
    {
        (&self.method, self.uri.as_str())
    }
}

/// A parsed request: its request line, its header table, and an optional
/// body (always absent for the GET requests recognised here).
#[derive(Debug)]
pub struct Request {
    request: RequestLine,
    headers: HeaderMap,
    data: Option<String>,
}

/// Whether a header table asks for the WebSocket upgrade: `connection`
/// must equal "upgrade" and `upgrade` must equal "websocket", both
/// compared lowercased.
pub open spec fn spec_is_websocket_upgrade(h: Seq<(Seq<char>, Seq<char>)>) -> bool {
    match (spec_lookup(h, "connection"@), spec_lookup(h, "upgrade"@)) {
        (Some(con), Some(upg)) => lower_of(con) == "upgrade"@ && lower_of(upg) == "websocket"@,
        _ => false,
    }
}

/// The accept token derived from a client key: base64 of the SHA-1 of
/// the key followed by the GUID that the WebSocket protocol fixes.
pub open spec fn spec_accept_value(key: Seq<char>) -> Seq<char> {
    base64_of(sha1_of(key + "258EAFA5-E914-47DA-95CA-C5AB0DC85B11"@))
}

impl Request {
    pub closed spec fn spec_headers(self) -> Seq<(Seq<char>, Seq<char>)> {
        self.headers@
    }

    pub closed spec fn spec_method(self) -> Method {
        self.request.method
    }

    pub closed spec fn spec_uri(self) -> Seq<char> {
        self.request.uri@
    }

    pub closed spec fn spec_version(self) -> Seq<char> {
        self.request.version@
    }

    pub closed spec fn spec_data(self) -> Option<Seq<char>> {
        match self.data {
            Some(d) => Some(d@),
            None => None,
        }
    }

    pub fn new(request: RequestLine, headers: HeaderMap, data: Option<String>) -> (r: Request)
        ensures
            r.spec_method() == request.spec_method(),
            r.spec_uri() == request.spec_uri(),
            r.spec_version() == request.spec_version(),
            r.spec_headers() == headers@,
            r.spec_data() == (match data {
                Some(s) => Some(s@),
                None => None::<Seq<char>>,
            }),
    {
        Request { request, headers, data }
    }

    pub fn get_method_and_uri(&self) -> (r: (&Method, &str))
        ensures
            *r.0 == self.spec_method(),
            r.1@ == self.spec_uri(),
    {
        self.request.get_method_and_uri()
    }

    pub fn headers(&self) -> (r: &HeaderMap)
        ensures
            r@ == self.spec_headers(),
    {
        &self.headers
    }

    /// Whether this request asks for the WebSocket upgrade.
    pub fn is_websocket_upgrade(&self) -> (r: bool)
        ensures
            r == spec_is_websocket_upgrade(self.spec_headers()),
    {
        match (self.headers.get("connection"), self.headers.get("upgrade")) {
            (Some(con), Some(upg)) => {
                let lc = lowercase(con.as_str());
                let lu = lowercase(upg.as_str());
                lc == "upgrade".to_owned() && lu == "websocket".to_owned()
            },
            _ => false,
        }
    }

    /// The subprotocols the client offers: its `sec-websocket-protocol`
    /// header split on commas, or nothing when the header is absent.
    pub fn get_websocket_protocol(&self) -> (r: Option<Vec<String>>)
        ensures
            (match (r, spec_lookup(self.spec_headers(), "sec-websocket-protocol"@)) {
                (Some(v), Some(protos)) => v.deep_view() == spec_split_char(protos, ','),
                (None, None) => true,
                _ => false,
            }),
    {
        match self.headers.get("sec-websocket-protocol") {
            Some(protos) => Some(split_char(protos.as_str(), ',')),
            None => None,
        }
    }

    /// The accept token answering this request's `sec-websocket-key`
    /// header, or nothing when the client sent no key.
    pub fn generate_websocket_accept_value(&self) -> (r: Option<String>)
        ensures
            (match (r, spec_lookup(self.spec_headers(), "sec-websocket-key"@)) {
                (Some(acc), Some(key)) => acc@ == spec_accept_value(key),
                (None, None) => true,
                _ => false,
            }),
    {
        match self.headers.get("sec-websocket-key") {
            Some(val) => {
                let mut input = val.clone();
                input.append("258EAFA5-E914-47DA-95CA-C5AB0DC85B11");
                let hash = sha1_digest(input.as_str());
                Some(base64_encode(hash.as_slice()))
            },
            None => None,
        }
    }
}

} // verus!
