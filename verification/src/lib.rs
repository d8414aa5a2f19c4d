//! A minimal verified WebSocket protocol engine: handshake negotiation,
//! frame encoding and decoding with masking, request parsing, and the
//! per-connection state machine. The transport around it (sockets,
//! threads) lives outside and drives these functions with plain values.
pub mod codec;
pub mod connection;
pub mod digest;
pub mod frame;
pub mod headers;
pub mod parser;
pub mod request;
pub mod response;
pub mod strutil;

pub use codec::{
    create_payload_buffer, decode_frame, get_actual_payload_length, parse_header, FrameError,
};
pub use connection::{
    negotiate, Connection, ConnectionState, HandshakeError, LoopAction, LoopEvent,
};
pub use frame::{unmask_payload, Frame, Header, Opcode};
pub use headers::{split_header, to_headers, HeaderMap};
pub use parser::{parse, parse_method, parse_request_line, ParseError};
pub use request::{Method, Request, RequestLine};
pub use response::{ok, websocket, Response};
