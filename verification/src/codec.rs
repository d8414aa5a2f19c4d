//! Inbound frame decoding: header bits, the three-branch extended-length
//! scheme, and masked-payload extraction.
use vstd::prelude::*;

use crate::frame::{spec_encode_frame, spec_mask, spec_unmask, unmask_payload, Header, Opcode};

verus! {

/// Why an inbound frame was refused. A truncated buffer is the buffer
/// analogue of a short read on the wire; the other two are protocol
/// errors in the frame itself.
#[derive(Debug, Clone, Copy, PartialEq, Eq, Structural)]
pub enum FrameError {
    /// The opcode bits name an opcode other than text or close.
    BadOpcode,
    /// The raw length field is none of the defined forms.
    InvalidPayloadLength,
    /// The buffer ends before the bytes the header promises.
    Truncated,
}

/// The final-frame flag: the top bit of the first header byte.
pub open spec fn spec_fin_bit(b0: u8) -> bool {
    b0 >> 7 == 1
}

/// The opcode: the low four bits of the first header byte.
pub open spec fn spec_opcode_bits(b0: u8) -> u8 {
    b0 & 0xF
}

/// The masked flag: the top bit of the second header byte.
pub open spec fn spec_mask_bit(b1: u8) -> bool {
    b1 >> 7 == 1
}

/// The raw 7-bit length field: the low seven bits of the second header
/// byte.
pub open spec fn spec_raw_len(b1: u8) -> u8 {
    b1 & 0x7F
}

/// Parse the two fixed header bytes of an inbound frame. Fails exactly
/// when the opcode bits name neither a text nor a close frame.
pub fn parse_header(header: [u8; 2]) -> (r: Result<Header, FrameError>)
    ensures
        r is Ok <==> (spec_opcode_bits(header[0]) == 1 || spec_opcode_bits(header[0]) == 8),
        r matches Ok(h) ==> {
            &&& h.is_final_frame == spec_fin_bit(header[0])
            &&& h.opcode == (if spec_opcode_bits(header[0]) == 1 {
                Opcode::TEXT
            } else {
                Opcode::CLOSE
            })
            &&& h.is_masked == spec_mask_bit(header[1])
            &&& h.payload_length == spec_raw_len(header[1]) as usize
        },
        r matches Err(e) ==> e == FrameError::BadOpcode,
{
    let is_final_frame = (header[0] >> 7) == 1;
    let opcode = header[0] & 0xF;
    let is_masked = (header[1] >> 7) == 1;
    let payload_length = header[1] & 0x7F;
    match opcode {
        1 => Ok(Header::new(is_final_frame, Opcode::TEXT, is_masked, payload_length as usize)),
        8 => Ok(Header::new(is_final_frame, Opcode::CLOSE, is_masked, payload_length as usize)),
        _ => Err(FrameError::BadOpcode),
    }
}

/// How many extended-length bytes follow the two header bytes for a raw
/// length field: none below 126, two for 126, eight for 127.
pub open spec fn spec_ext_len(raw_len: usize) -> nat {
    if raw_len <= 125 {
        0
    } else if raw_len == 126 {
        2
    } else if raw_len == 127 {
        8
    } else {
        0
    }
}

/// A 16-bit big-endian value.
pub open spec fn spec_be16(hi: u8, lo: u8) -> u16 {
    ((hi as int) * 256 + (lo as int)) as u16
}

/// A 64-bit big-endian value.
pub open spec fn spec_be64(b: Seq<u8>) -> u64
    recommends
        b.len() == 8,
{
    ((b[0] as u64) << 56) | ((b[1] as u64) << 48) | ((b[2] as u64) << 40) | ((b[3] as u64) << 32)
        | ((b[4] as u64) << 24) | ((b[5] as u64) << 16) | ((b[6] as u64) << 8) | (b[7] as u64)
}

/// The actual payload length that a raw length field and the extension
/// bytes after the header resolve to.
pub open spec fn spec_actual_payload_length(raw_len: usize, ext: Seq<u8>) -> Result<
    u64,
    FrameError,
> {
    if raw_len <= 125 {
        Ok(raw_len as u64)
    } else if raw_len == 126 {
        if ext.len() >= 2 {
            Ok(spec_be16(ext[0], ext[1]) as u64)
        } else {
            Err(FrameError::Truncated)
        }
    } else if raw_len == 127 {
        if ext.len() >= 8 {
            Ok(spec_be64(ext.take(8)))
        } else {
            Err(FrameError::Truncated)
        }
    } else {
        Err(FrameError::InvalidPayloadLength)
    }
}

/// Resolve the raw 7-bit length field against the extension bytes that
/// follow the header: the raw value itself below 126, a big-endian 16-bit
/// length for 126, a big-endian 64-bit length for 127. Any other raw
/// value is unreachable from a 7-bit field but kept as a defensive error.
pub fn get_actual_payload_length(raw_len: usize, ext: &[u8]) -> (r: Result<u64, FrameError>)
    ensures
        r == spec_actual_payload_length(raw_len, ext@),
{
    if raw_len <= 125 {
        Ok(raw_len as u64)
    } else if raw_len == 126 {
        if ext.len() >= 2 {
            Ok((ext[0] as u64) * 256 + (ext[1] as u64))
        } else {
            Err(FrameError::Truncated)
        }
    } else if raw_len == 127 {
        if ext.len() >= 8 {
            let v = ((ext[0] as u64) << 56) | ((ext[1] as u64) << 48) | ((ext[2] as u64) << 40) | (
            (ext[3] as u64) << 32) | ((ext[4] as u64) << 24) | ((ext[5] as u64) << 16) | ((
            ext[6] as u64) << 8) | (ext[7] as u64);
            proof {
                assert(ext@.take(8)[0] == ext@[0]);
                assert(ext@.take(8)[1] == ext@[1]);
                assert(ext@.take(8)[2] == ext@[2]);
                assert(ext@.take(8)[3] == ext@[3]);
                assert(ext@.take(8)[4] == ext@[4]);
                assert(ext@.take(8)[5] == ext@[5]);
                assert(ext@.take(8)[6] == ext@[6]);
                assert(ext@.take(8)[7] == ext@[7]);
            }
            Ok(v)
        } else {
            Err(FrameError::Truncated)
        }
    } else {
        Err(FrameError::InvalidPayloadLength)
    }
}

/// A zeroed buffer of exactly the resolved payload length, ready for the
/// payload read.
pub fn create_payload_buffer(payload_length: u64) -> (r: Vec<u8>)
    requires
        payload_length <= usize::MAX,
    ensures
        r@.len() == payload_length,
        forall|i: int| 0 <= i < r@.len() ==> r@[i] == 0,
{
    let n = payload_length as usize;
    let mut buf: Vec<u8> = Vec::new();
    let mut i: usize = 0;
    while i < n
        invariant
            i <= n,
            buf@.len() == i,
            forall|j: int| 0 <= j < i ==> buf@[j] == 0,
        decreases n - i,
    {
        buf.push(0);
        i = i + 1;
    }
    buf
}

/// What decoding one complete frame from a byte buffer yields: the
/// unmasked text payload, or `None` as the end-of-stream signal for a
/// close frame, or the error. Bytes past the frame's own end are ignored.
pub open spec fn spec_decode_frame(bytes: Seq<u8>) -> Result<Option<Seq<u8>>, FrameError> {
    if bytes.len() < 2 {
        Err(FrameError::Truncated)
    } else {
        let b0 = bytes[0];
        let b1 = bytes[1];
        if spec_opcode_bits(b0) != 1 && spec_opcode_bits(b0) != 8 {
            Err(FrameError::BadOpcode)
        } else {
            let raw = spec_raw_len(b1) as usize;
            match spec_actual_payload_length(raw, bytes.skip(2)) {
                Err(e) => Err(e),
                Ok(len) => {
                    if spec_opcode_bits(b0) == 8 {
                        Ok(None)
                    } else {
                        let off: int = 2 + spec_ext_len(raw) as int;
                        if spec_mask_bit(b1) {
                            if bytes.len() >= off + 4 + len {
                                let key = [
                                    bytes[off],
                                    bytes[off + 1],
                                    bytes[off + 2],
                                    bytes[off + 3],
                                ];
                                Ok(
                                    Some(
                                        spec_mask(
                                            bytes.subrange(off + 4, off + 4 + len),
                                            key,
                                        ),
                                    ),
                                )
                            } else {
                                Err(FrameError::Truncated)
                            }
                        } else {
                            if bytes.len() >= off + len {
                                Ok(Some(bytes.subrange(off, off + len)))
                            } else {
                                Err(FrameError::Truncated)
                            }
                        }
                    }
                },
            }
        }
    }
}

/// Decoding reconstructs what encoding produced: for any payload that the
/// encoder accepts, decoding the encoded text frame yields exactly the
/// original payload bytes.
pub proof fn lemma_decode_encode_roundtrip(msg: Seq<u8>)
    requires
        msg.len() < 65536,
    ensures
        spec_decode_frame(spec_encode_frame(msg, Opcode::TEXT)) == Ok::<
            Option<Seq<u8>>,
            FrameError,
        >(Some(msg)),
{
    let enc = spec_encode_frame(msg, Opcode::TEXT);
    assert(129u8 & 0xF == 1) by (bit_vector);
    assert(129u8 >> 7 == 1) by (bit_vector);
    if msg.len() < 126 {
        let b1 = msg.len() as u8;
        assert(enc[0] == 129 && enc[1] == b1);
        assert(b1 & 0x7F == b1 && b1 >> 7 == 0) by (bit_vector)
            requires
                b1 < 126,
        ;
        assert(enc.subrange(2, 2 + msg.len() as int) =~= msg);
    } else {
        let hi = (msg.len() / 256) as u8;
        let lo = (msg.len() % 256) as u8;
        assert(enc[0] == 129 && enc[1] == 126 && enc[2] == hi && enc[3] == lo);
        assert(126u8 & 0x7F == 126 && 126u8 >> 7 == 0) by (bit_vector);
        let ext = enc.skip(2);
        assert(ext[0] == hi && ext[1] == lo);
        assert(msg.len() / 256 < 256);
        vstd::arithmetic::div_mod::lemma_fundamental_div_mod(msg.len() as int, 256);
        assert(spec_be16(hi, lo) == msg.len());
        assert(enc.subrange(4, 4 + msg.len() as int) =~= msg);
    }
}

/// A frame whose opcode bits name neither a text nor a close frame — the
/// binary opcode among them — fails decoding with the protocol error for
/// a bad opcode, never with anything else.
pub proof fn lemma_unsupported_opcode_rejected(bytes: Seq<u8>)
    requires
        bytes.len() >= 2,
        spec_opcode_bits(bytes[0]) != 1,
        spec_opcode_bits(bytes[0]) != 8,
    ensures
        spec_decode_frame(bytes) == Err::<Option<Seq<u8>>, FrameError>(FrameError::BadOpcode),
{
}

/// Copy `count` bytes of `bytes` starting at `start` into a fresh vector.
fn copy_range(bytes: &Vec<u8>, start: usize, count: usize) -> (r: Vec<u8>)
    requires
        start + count <= bytes@.len(),
    ensures
        r@ == bytes@.subrange(start as int, start + count),
{
    let blen = bytes.len();
    let mut out: Vec<u8> = Vec::new();
    let mut i: usize = 0;
    while i < count
        invariant
            i <= count,
            start + count <= blen,
            blen == bytes@.len(),
            out@ == bytes@.subrange(start as int, start + i),
        decreases count - i,
    {
        out.push(bytes[start + i]);
        proof {
            assert(out@ =~= bytes@.subrange(start as int, start + i + 1));
        }
        i = i + 1;
    }
    out
}

/// Decode one complete inbound frame from a byte buffer: header bits,
/// extended length, masking key, and payload, exactly as they stand on
/// the wire. A text frame yields its unmasked payload; a close frame
/// yields `None`, the end-of-stream signal.
pub fn decode_frame(bytes: &Vec<u8>) -> (r: Result<Option<Vec<u8>>, FrameError>)
    ensures
        (match (r, spec_decode_frame(bytes@)) {
            (Ok(Some(p)), Ok(Some(q))) => p@ == q,
            (Ok(None), Ok(None)) => true,
            (Err(e), Err(f)) => e == f,
            _ => false,
        }),
{
    if bytes.len() < 2 {
        return Err(FrameError::Truncated);
    }
    let header: [u8; 2] = [bytes[0], bytes[1]];
    proof {
        assert(header[0] == bytes@[0]);
        assert(header[1] == bytes@[1]);
    }
    let parsed = match parse_header(header) {
        Ok(h) => h,
        Err(e) => {
            return Err(e);
        },
    };
    let raw = parsed.payload_length;
    proof {
        let b1 = bytes@[1];
        assert(b1 & 0x7F <= 127) by (bit_vector);
    }
    let ext_len: usize = if raw <= 125 {
        0
    } else if raw == 126 {
        2
    } else {
        8
    };
    if bytes.len() < 2 + ext_len {
        proof {
            if raw == 126 {
                assert(bytes@.skip(2).len() < 2);
            } else if raw == 127 {
                assert(bytes@.skip(2).len() < 8);
            }
        }
        return Err(FrameError::Truncated);
    }
    let ext = copy_range(bytes, 2, ext_len);
    proof {
        assert(ext@ =~= bytes@.skip(2).take(ext_len as int));
        if raw == 126 && ext_len == 2 {
            assert(ext@[0] == bytes@.skip(2)[0]);
            assert(ext@[1] == bytes@.skip(2)[1]);
        }
        if raw == 127 && ext_len == 8 {
            assert(ext@.take(8) =~= bytes@.skip(2).take(8));
        }
    }
    let len = match get_actual_payload_length(raw, ext.as_slice()) {
        Ok(l) => l,
        Err(e) => {
            proof {
                // A raw field of 126 or 127 with enough bytes present cannot
                // fail here, so the spec fails with the same error.
                assert(spec_actual_payload_length(raw, bytes@.skip(2)) == Err::<u64, FrameError>(e));
            }
            return Err(e);
        },
    };
    proof {
        assert(spec_actual_payload_length(raw, bytes@.skip(2)) == Ok::<u64, FrameError>(len));
    }
    match parsed.opcode {
        Opcode::CLOSE => Ok(None),
        Opcode::TEXT => {
            let off = 2 + ext_len;
            if parsed.is_masked {
                if bytes.len() >= off + 4 && len <= (bytes.len() - off - 4) as u64 {
                    let key: [u8; 4] = [bytes[off], bytes[off + 1], bytes[off + 2], bytes[off + 3]];
                    let payload = copy_range(bytes, off + 4, len as usize);
                    let unmasked = unmask_payload(payload, Some(key));
                    Ok(Some(unmasked))
                } else {
                    Err(FrameError::Truncated)
                }
            } else {
                if len <= (bytes.len() - off) as u64 {
                    let payload = copy_range(bytes, off, len as usize);
                    Ok(Some(payload))
                } else {
                    Err(FrameError::Truncated)
                }
            }
        },
    }
}

} // verus!
