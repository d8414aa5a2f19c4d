//! WebSocket frame model: opcodes, outbound frame encoding, header fields,
//! and payload masking.
use vstd::prelude::*;

verus! {

/// WebSocket frame opcode. Only text messages and connection close are
/// supported; every other opcode on the wire is a decode error.
#[derive(Debug, Clone, Copy, PartialEq, Eq, Structural)]
pub enum Opcode {
    TEXT,
    CLOSE,
}

impl Opcode {
    /// The numeric value this opcode carries in the low four bits of a
    /// frame's first byte.
    pub open spec fn spec_value(self) -> u8 {
        match self {
            Opcode::TEXT => 1,
            Opcode::CLOSE => 8,
        }
    }

    pub fn value(self) -> (v: u8)
        ensures
            v == self.spec_value(),
    {
        match self {
            Opcode::TEXT => 1,
            Opcode::CLOSE => 8,
        }
    }
}

/// The exact byte layout of an outbound frame: a first byte with the
/// final-frame bit set and the opcode in the low bits, then the length
/// (one byte below 126, else the marker 126 and a big-endian 16-bit
/// length), then the raw payload. Server frames carry no masking key.
pub open spec fn spec_encode_frame(msg: Seq<u8>, opcode: Opcode) -> Seq<u8> {
    if msg.len() < 126 {
        seq![(128 + opcode.spec_value()) as u8, msg.len() as u8] + msg
    } else {
        seq![
            (128 + opcode.spec_value()) as u8,
            126u8,
            (msg.len() / 256) as u8,
            (msg.len() % 256) as u8,
        ] + msg
    }
}

/// A fully encoded outbound WebSocket frame, ready to be written to the
/// peer byte for byte.
pub struct Frame {
    pub payload: Vec<u8>,
}

impl Frame {
    /// Encode one message as a final, unmasked frame with the given opcode.
    /// Payloads of 65536 bytes or more would need the 8-byte length form,
    /// which is out of scope.
    pub fn new(mut msg: Vec<u8>, opcode: Opcode) -> (frame: Frame)
        requires
            msg@.len() < 65536,
        ensures
            frame.payload@ == spec_encode_frame(msg@, opcode),
    {
        let ghost msg0 = msg@;
        let len = msg.len();
        let mut header: Vec<u8> = Vec::new();
        header.push(128 + opcode.value());
        if len < 126 {
            header.push(len as u8);
        } else {
            header.push(126);
            header.push((len / 256) as u8);
            header.push((len % 256) as u8);
        }
        header.append(&mut msg);
        proof {
            assert(header@ =~= spec_encode_frame(msg0, opcode));
        }
        Frame { payload: header }
    }
}

/// A decoded frame header: the fixed two bytes of an inbound frame, with
/// the raw 7-bit length field widened to `usize`.
#[derive(Debug)]
pub struct Header {
    pub is_final_frame: bool,
    pub opcode: Opcode,
    pub is_masked: bool,
    pub payload_length: usize,
}

impl Header {
    pub fn new(is_final_frame: bool, opcode: Opcode, is_masked: bool, payload_length: usize) -> (h:
        Header)
        ensures
            h.is_final_frame == is_final_frame,
            h.opcode == opcode,
            h.is_masked == is_masked,
            h.payload_length == payload_length,
    {
        Header { is_final_frame, opcode, is_masked, payload_length }
    }
}

/// Each payload byte XOR-ed with the masking key byte at its index modulo
/// four.
pub open spec fn spec_mask(payload: Seq<u8>, key: [u8; 4]) -> Seq<u8> {
    Seq::new(payload.len(), |i: int| payload[i] ^ key[i % 4])
}

/// What unmasking returns: the XOR transform when a key is present, the
/// payload untouched when none is.
pub open spec fn spec_unmask(payload: Seq<u8>, masking_key: Option<[u8; 4]>) -> Seq<u8> {
    match masking_key {
        Some(key) => spec_mask(payload, key),
        None => payload,
    }
}

/// Remove (or, by symmetry, apply) the client's XOR mask from a payload.
pub fn unmask_payload(payload: Vec<u8>, masking_key: Option<[u8; 4]>) -> (r: Vec<u8>)
    ensures
        r@ == spec_unmask(payload@, masking_key),
{
    match masking_key {
        Some(key) => {
            let mut out: Vec<u8> = Vec::new();
            let mut i: usize = 0;
            while i < payload.len()
                invariant
                    i <= payload@.len(),
                    out@ == spec_mask(payload@, key).take(i as int),
                decreases payload@.len() - i,
            {
                out.push(payload[i] ^ key[i % 4]);
                proof {
                    assert(out@ =~= spec_mask(payload@, key).take(i + 1));
                }
                i = i + 1;
            }
            proof {
                assert(out@ =~= spec_mask(payload@, key));
            }
            out
        },
        None => payload,
    }
}

/// Masking is involutive: applying the same four-byte key twice gives the
/// original payload back.
pub proof fn lemma_unmask_involutive(payload: Seq<u8>, key: [u8; 4])
    ensures
        spec_unmask(spec_unmask(payload, Some(key)), Some(key)) == payload,
{
    let once = spec_mask(payload, key);
    let twice = spec_mask(once, key);
    assert forall|i: int| 0 <= i < payload.len() implies twice[i] == payload[i] by {
        let k = key[i % 4];
        let p = payload[i];
        assert((p ^ k) ^ k == p) by (bit_vector);
    }
    assert(twice =~= payload);
}

} // verus!
