//! HTTP responses the server sends: a plain 200 with a body, and the 101
//! switching-protocols answer that completes the WebSocket handshake.
use vstd::prelude::*;

use crate::strutil::{join, spec_dec_digits, spec_join, usize_to_string};
use vstd::string::{StrSliceExecFns, StringExecFns, StringSliceAdditionalSpecFns};
use vstd::utf8::encode_utf8;

verus! {

/// An HTTP response, already rendered: the header block's bytes and the
/// body's bytes, written to the peer one after the other.
pub struct Response {
    headers: Vec<u8>,
    body: Vec<u8>,
}

/// The header block of a 200 response: the status line, then the given
/// headers, then the content-length line that also carries the blank
/// line ending the head, all joined by CRLF.
pub open spec fn spec_ok_header_block(msg: Seq<char>, headers: Seq<Seq<char>>) -> Seq<char> {
    spec_join(
        seq!["HTTP/1.1 200 OK"@] + headers + seq![
            "Content-Length: "@ + spec_dec_digits(encode_utf8(msg).len()) + "\r\n\r\n"@,
        ],
        "\r\n"@,
    )
}

/// The header block of the 101 handshake response: the exact six lines
/// the protocol upgrade requires, joined by CRLF, the last line carrying
/// the blank line that ends the head.
pub open spec fn spec_websocket_header_block(key: Seq<char>, proto: Seq<char>) -> Seq<char> {
    spec_join(
        seq![
            "HTTP/1.1 101 Web Socket Protocol Handshake"@,
            "Connection: Upgrade"@,
            "Content-Length: 0"@,
            "Sec-WebSocket-Accept: "@ + key,
            "Sec-WebSocket-Protocol: "@ + proto,
            "Upgrade: websocket\r\n\r\n"@,
        ],
        "\r\n"@,
    )
}

fn push_bytes(out: &mut Vec<u8>, src: &Vec<u8>)
    ensures
        final(out)@ == old(out)@ + src@,
{
    let n = src.len();
    let mut i: usize = 0;
    while i < n
        invariant
            i <= n,
            n == src@.len(),
            out@ == old(out)@ + src@.take(i as int),
        decreases n - i,
    {
        out.push(src[i]);
        proof {
            assert(out@ =~= old(out)@ + src@.take(i + 1));
        }
        i = i + 1;
    }
    proof {
        assert(out@ =~= old(out)@ + src@);
    }
}

impl Response {
    pub closed spec fn spec_headers(self) -> Seq<u8> {
        self.headers@
    }

    pub closed spec fn spec_body(self) -> Seq<u8> {
        self.body@
    }

    /// The full wire form of the response: header block, then body.
    pub fn to_bytes(&self) -> (r: Vec<u8>)
        ensures
            r@ == self.spec_headers() + self.spec_body(),
    {
        let mut out: Vec<u8> = Vec::new();
        push_bytes(&mut out, &self.headers);
        push_bytes(&mut out, &self.body);
        proof {
            assert(out@ =~= self.spec_headers() + self.spec_body());
        }
        out
    }
}

/// A 200 response carrying `msg` as its body, with the given extra
/// header lines between the status line and the content-length line.
pub fn ok(msg: &str, headers: Vec<String>) -> (r: Response)
    requires
        encode_utf8(msg@).len() <= usize::MAX,
    ensures
        r.spec_headers() == encode_utf8(spec_ok_header_block(msg@, headers.deep_view())),
        r.spec_body() == encode_utf8(msg@),
{
    let ghost given = headers.deep_view();
    let mut lines = headers;
    let body: Vec<u8> = msg.as_bytes_vec();
    lines.insert(0, "HTTP/1.1 200 OK".to_owned());
    let mut cl = "Content-Length: ".to_owned();
    cl.append(usize_to_string(msg.len()).as_str());
    cl.append("\r\n\r\n");
    lines.push(cl);
    proof {
        assert(lines.deep_view() =~~= seq!["HTTP/1.1 200 OK"@] + given + seq![
            "Content-Length: "@ + spec_dec_digits(encode_utf8(msg@).len()) + "\r\n\r\n"@,
        ]);
    }
    let head = join(&lines, "\r\n");
    Response { headers: head.as_str().as_bytes_vec(), body }
}

/// The 101 switching-protocols response that accepts a WebSocket
/// handshake, echoing the derived accept token and the chosen
/// subprotocol. Its body is empty.
pub fn websocket(key: String, proto: String) -> (r: Response)
    ensures
        r.spec_headers() == encode_utf8(spec_websocket_header_block(key@, proto@)),
        r.spec_body() == Seq::<u8>::empty(),
{
    let mut accept_line = "Sec-WebSocket-Accept: ".to_owned();
    accept_line.append(key.as_str());
    let mut proto_line = "Sec-WebSocket-Protocol: ".to_owned();
    proto_line.append(proto.as_str());
    let mut lines: Vec<String> = Vec::new();
    lines.push("HTTP/1.1 101 Web Socket Protocol Handshake".to_owned());
    lines.push("Connection: Upgrade".to_owned());
    lines.push("Content-Length: 0".to_owned());
    lines.push(accept_line);
    lines.push(proto_line);
    lines.push("Upgrade: websocket\r\n\r\n".to_owned());
    proof {
        assert(lines.deep_view() =~~= seq![
            "HTTP/1.1 101 Web Socket Protocol Handshake"@,
            "Connection: Upgrade"@,
            "Content-Length: 0"@,
            "Sec-WebSocket-Accept: "@ + key@,
            "Sec-WebSocket-Protocol: "@ + proto@,
            "Upgrade: websocket\r\n\r\n"@,
        ]);
    }
    let head = join(&lines, "\r\n");
    let body: Vec<u8> = Vec::new();
    let r = Response { headers: head.as_str().as_bytes_vec(), body };
    proof {
        assert(r.spec_body() =~= Seq::<u8>::empty());
    }
    r
}

} // verus!
