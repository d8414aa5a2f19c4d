//! Handshake negotiation and the per-connection state machine: negotiate,
//! then echo text messages until the peer closes or an error ends the
//! connection.
use vstd::prelude::*;

use crate::headers::spec_lookup;
use crate::request::{spec_accept_value, Request};
use crate::response::{spec_websocket_header_block, websocket, Response};
use crate::strutil::spec_split_char;
use vstd::utf8::encode_utf8;

verus! {

/// The one handshake failure the caller sees: the connection is aborted
/// before it ever opens, whether the key was missing or the subprotocol
/// offer excluded ours.
#[derive(Debug, Clone, Copy, PartialEq, Eq, Structural)]
pub enum HandshakeError {
    ConnectionAborted,
}

/// Whether the client's subprotocol offer admits `proto`: the offer
/// header, split on commas, must contain it exactly — and a client that
/// sent no offer accepts anything.
pub open spec fn spec_protocol_acceptable(h: Seq<(Seq<char>, Seq<char>)>, proto: Seq<char>) -> bool {
    match spec_lookup(h, "sec-websocket-protocol"@) {
        Some(protos) => spec_split_char(protos, ',').contains(proto),
        None => true,
    }
}

/// Whether a handshake succeeds: the client sent a `sec-websocket-key`
/// and its subprotocol offer admits ours.
pub open spec fn spec_negotiation_ok(h: Seq<(Seq<char>, Seq<char>)>, proto: Seq<char>) -> bool {
    spec_lookup(h, "sec-websocket-key"@) is Some && spec_protocol_acceptable(h, proto)
}

/// A request without a `sec-websocket-key` header never negotiates a
/// connection, whatever else it carries.
pub proof fn lemma_missing_key_rejects(h: Seq<(Seq<char>, Seq<char>)>, proto: Seq<char>)
    requires
        spec_lookup(h, "sec-websocket-key"@) is None,
    ensures
        !spec_negotiation_ok(h, proto),
{
}

/// A request whose subprotocol offer excludes ours is rejected.
pub proof fn lemma_protocol_mismatch_rejects(
    h: Seq<(Seq<char>, Seq<char>)>,
    proto: Seq<char>,
    offered: Seq<char>,
)
    requires
        spec_lookup(h, "sec-websocket-protocol"@) == Some(offered),
        !spec_split_char(offered, ',').contains(proto),
    ensures
        !spec_negotiation_ok(h, proto),
{
}

/// A request with a key and no subprotocol header at all negotiates
/// successfully: the absent offer accepts any protocol.
pub proof fn lemma_no_protocol_header_accepts(h: Seq<(Seq<char>, Seq<char>)>, proto: Seq<char>)
    requires
        spec_lookup(h, "sec-websocket-protocol"@) is None,
        spec_lookup(h, "sec-websocket-key"@) is Some,
    ensures
        spec_negotiation_ok(h, proto),
{
}

fn protocols_contain(protos: &Vec<String>, proto: &str) -> (r: bool)
    ensures
        r == protos.deep_view().contains(proto@),
{
    let p: String = proto.to_owned();
    let n = protos.len();
    let mut i: usize = 0;
    while i < n
        invariant
            i <= n,
            n == protos@.len(),
            p@ == proto@,
            forall|j: int| 0 <= j < i ==> protos.deep_view()[j] != proto@,
        decreases n - i,
    {
        proof {
            assert(protos.deep_view()[i as int] == protos@[i as int]@);
        }
        if protos[i] == p {
            return true;
        }
        i = i + 1;
    }
    false
}

/// Negotiate the upgrade for one request: succeed exactly when the
/// client sent a key and its offer admits our protocol, and then answer
/// with the full 101 response; otherwise abort the connection.
pub fn negotiate(request: &Request, protocol: &str) -> (r: Result<Response, HandshakeError>)
    ensures
        r is Ok <==> spec_negotiation_ok(request.spec_headers(), protocol@),
        r matches Ok(resp) ==> {
            &&& resp.spec_headers() == encode_utf8(
                spec_websocket_header_block(
                    spec_accept_value(
                        spec_lookup(request.spec_headers(), "sec-websocket-key"@).unwrap(),
                    ),
                    protocol@,
                ),
            )
            &&& resp.spec_body() == Seq::<u8>::empty()
        },
        r matches Err(e) ==> e == HandshakeError::ConnectionAborted,
{
    let is_ok = match request.get_websocket_protocol() {
        Some(protos) => protocols_contain(&protos, protocol),
        None => true,
    };
    match (request.generate_websocket_accept_value(), is_ok) {
        (Some(key), true) => Ok(websocket(key, protocol.to_owned())),
        _ => Err(HandshakeError::ConnectionAborted),
    }
}

/// Where one connection stands: still negotiating the handshake, open
/// and exchanging frames, or closed for good.
#[derive(Debug, Clone, Copy, PartialEq, Eq, Structural)]
pub enum ConnectionState {
    Negotiating,
    Open,
    Closed,
}

/// One thing the transport observed on an open connection: a decoded
/// text payload, the peer closing (a close frame or a clean end of
/// stream), or a decode or transport failure.
pub enum LoopEvent {
    Message(Vec<u8>),
    PeerClosed,
    Failed,
}

/// What the loop must do next: write an echo of the payload back, stop
/// reporting success, or stop reporting the error.
pub enum LoopAction {
    Reply(Vec<u8>),
    FinishOk,
    FinishErr,
}

/// The state machine of one connection. The transport drives it:
/// `handshake` once, then `step` for every event until the action says
/// to stop.
pub struct Connection {
    state: ConnectionState,
}

impl Connection {
    pub closed spec fn spec_state(self) -> ConnectionState {
        self.state
    }

    /// A fresh connection, still to be negotiated.
    pub fn new() -> (c: Connection)
        ensures
            c.spec_state() == ConnectionState::Negotiating,
    {
        Connection { state: ConnectionState::Negotiating }
    }

    /// Run the handshake: on success the connection opens and the 101
    /// response must be written back; on failure it closes for good.
    pub fn handshake(&mut self, request: &Request, protocol: &str) -> (r: Result<
        Response,
        HandshakeError,
    >)
        requires
            old(self).spec_state() == ConnectionState::Negotiating,
        ensures
            r is Ok <==> spec_negotiation_ok(request.spec_headers(), protocol@),
            r is Ok ==> final(self).spec_state() == ConnectionState::Open,
            r is Err ==> final(self).spec_state() == ConnectionState::Closed,
            r matches Ok(resp) ==> {
                &&& resp.spec_headers() == encode_utf8(
                    spec_websocket_header_block(
                        spec_accept_value(
                            spec_lookup(request.spec_headers(), "sec-websocket-key"@).unwrap(),
                        ),
                        protocol@,
                    ),
                )
                &&& resp.spec_body() == Seq::<u8>::empty()
            },
            r matches Err(e) ==> e == HandshakeError::ConnectionAborted,
    {
        match negotiate(request, protocol) {
            Ok(resp) => {
                self.state = ConnectionState::Open;
                Ok(resp)
            },
            Err(e) => {
                self.state = ConnectionState::Closed;
                Err(e)
            },
        }
    }

    /// Advance the open connection by one event. A text message is
    /// echoed back and the connection stays open; the peer closing ends
    /// the loop as a success, never as an error; a failure ends it with
    /// the error.
    pub fn step(&mut self, event: LoopEvent) -> (a: LoopAction)
        requires
            old(self).spec_state() == ConnectionState::Open,
        ensures
            (match event {
                LoopEvent::Message(m) => {
                    &&& final(self).spec_state() == ConnectionState::Open
                    &&& a matches LoopAction::Reply(p) && p@ == m@
                },
                LoopEvent::PeerClosed => {
                    &&& final(self).spec_state() == ConnectionState::Closed
                    &&& a == LoopAction::FinishOk
                },
                LoopEvent::Failed => {
                    &&& final(self).spec_state() == ConnectionState::Closed
                    &&& a == LoopAction::FinishErr
                },
            }),
    {
        match event {
            LoopEvent::Message(m) => LoopAction::Reply(m),
            LoopEvent::PeerClosed => {
                self.state = ConnectionState::Closed;
                LoopAction::FinishOk
            },
            LoopEvent::Failed => {
                self.state = ConnectionState::Closed;
                LoopAction::FinishErr
            },
        }
    }
}

} // verus!
