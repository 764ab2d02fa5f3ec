//! Framing: putting a payload behind its header, and taking a frame apart.
//!
//! Nothing here reads or writes a stream. `encode_frame` hands back the bytes
//! to send; `decode_frame` looks at the bytes received so far and says whether
//! they hold a whole frame. Both refuse a payload longer than the bound that
//! the caller sets, so that a peer cannot make the receiver allocate without
//! limit.

use crate::error::{PdbError, PdbErrorView};
use crate::protocol::{MessageHeader, HEADER_LEN, PROTOCOL_VERSION};
use vstd::prelude::*;
use vstd::slice::*;
use vstd::string::*;

verus! {

/// The frame of a payload: the header with this version and the payload's
/// length, then the payload.
pub open spec fn frame_of(payload: Seq<u8>) -> Seq<u8>
    recommends
        payload.len() <= u32::MAX,
{
    MessageHeader { version: PROTOCOL_VERSION, length: payload.len() as u32 }.spec_to_bytes()
        + payload
}

/// What a run of received bytes holds.
pub enum Parsed {
    /// The bytes end before the frame does: `missing` more are needed.
    Incomplete { missing: nat },
    /// The header announces a payload longer than the bound.
    Oversized { header: MessageHeader },
    /// A whole frame, and behind it the bytes from `consumed` on.
    Complete { header: MessageHeader, payload: Seq<u8>, consumed: nat },
}

/// Takes the first frame off `bytes`, accepting payloads of up to `max_payload` bytes.
///
/// The header is the first eight bytes, the payload the `length` bytes that
/// follow it: no fewer and no more.
pub open spec fn parse_frame(bytes: Seq<u8>, max_payload: u32) -> Parsed {
    if bytes.len() < 8 {
        Parsed::Incomplete { missing: (8 - bytes.len()) as nat }
    } else {
        let header = MessageHeader::spec_from_bytes(bytes.subrange(0, 8));
        if header.length > max_payload {
            Parsed::Oversized { header }
        } else if bytes.len() < 8 + header.length {
            Parsed::Incomplete { missing: (8 + header.length - bytes.len()) as nat }
        } else {
            Parsed::Complete {
                header,
                payload: bytes.subrange(8, 8 + header.length),
                consumed: (8 + header.length) as nat,
            }
        }
    }
}

/// What `decode_frame` found in the bytes received so far.
#[derive(Debug, PartialEq, Eq)]
pub enum Decoded {
    /// The bytes end before the frame does: `missing` more are needed.
    Incomplete { missing: usize },
    /// A whole frame. It took `consumed` bytes; what follows them belongs to
    /// the next frame.
    Complete { header: MessageHeader, payload: Vec<u8>, consumed: usize },
}

impl Decoded {
    /// Whether this is the outcome `parsed`.
    pub open spec fn matches_parsed(self, parsed: Parsed) -> bool {
        match self {
            Decoded::Incomplete { missing } => parsed == (Parsed::Incomplete {
                missing: missing as nat,
            }),
            Decoded::Complete { header, payload, consumed } => parsed == (Parsed::Complete {
                header,
                payload: payload@,
                consumed: consumed as nat,
            }),
        }
    }
}

/// The error for a payload that is longer than the bound.
pub open spec fn oversized_error() -> PdbErrorView {
    PdbErrorView::ProtocolError("Payload too large"@)
}

fn oversized() -> (e: PdbError)
    ensures
        e@ == oversized_error(),
{
    PdbError::ProtocolError(String::from_str("Payload too large"))
}

/// Frames a payload of at most `max_payload` bytes.
pub fn encode_frame(payload: &[u8], max_payload: u32) -> (r: Result<Vec<u8>, PdbError>)
    ensures
        r is Ok <==> payload@.len() <= max_payload,
        r matches Ok(frame) ==> frame@ == frame_of(payload@),
        r matches Err(e) ==> e@ == oversized_error(),
{
    if payload.len() > max_payload as usize {
        return Err(oversized());
    }
    let header = MessageHeader::new(payload.len() as u32);
    let head = header.to_bytes();
    let mut frame: Vec<u8> = slice_to_vec(head.as_slice());
    frame.extend_from_slice(payload);
    assert(frame@ =~= frame_of(payload@));
    Ok(frame)
}

/// Looks for a whole frame at the start of `bytes`, accepting payloads of up
/// to `max_payload` bytes.
///
/// An announced length over the bound is an error, whatever follows the
/// header. Too few bytes are no error: the result says how many are missing.
pub fn decode_frame(bytes: &[u8], max_payload: u32) -> (r: Result<Decoded, PdbError>)
    ensures
        r is Err <==> parse_frame(bytes@, max_payload) is Oversized,
        r matches Ok(decoded) ==> decoded.matches_parsed(parse_frame(bytes@, max_payload)),
        r matches Err(e) ==> e@ == oversized_error(),
{
    if bytes.len() < HEADER_LEN {
        return Ok(Decoded::Incomplete { missing: HEADER_LEN - bytes.len() });
    }
    let head: &[u8] = slice_subrange(bytes, 0, HEADER_LEN);
    let header = read_header(head);
    if header.length > max_payload {
        return Err(oversized());
    }
    let length: usize = header.length as usize;
    let available: usize = bytes.len() - HEADER_LEN;
    if available < length {
        return Ok(Decoded::Incomplete { missing: length - available });
    }
    let payload: Vec<u8> = slice_to_vec(slice_subrange(bytes, HEADER_LEN, HEADER_LEN + length));
    Ok(Decoded::Complete { header, payload, consumed: HEADER_LEN + length })
}

/// Reads the header that a slice of eight bytes holds.
pub fn read_header(bytes: &[u8]) -> (h: MessageHeader)
    requires
        bytes@.len() == 8,
    ensures
        h == MessageHeader::spec_from_bytes(bytes@),
{
    let head: [u8; 8] = [
        bytes[0],
        bytes[1],
        bytes[2],
        bytes[3],
        bytes[4],
        bytes[5],
        bytes[6],
        bytes[7],
    ];
    assert(head@ =~= bytes@);
    MessageHeader::from_bytes(&head)
}

/// Checks the length that a header announces against the bound, and hands it
/// back as the number of bytes to read.
pub fn payload_length(header: &MessageHeader, max_payload: u32) -> (r: Result<usize, PdbError>)
    ensures
        r is Ok <==> header.length <= max_payload,
        r matches Ok(n) ==> n == header.length,
        r matches Err(e) ==> e@ == oversized_error(),
{
    if header.length > max_payload {
        Err(oversized())
    } else {
        Ok(header.length as usize)
    }
}

/// A frame that was encoded decodes to the payload it was made of, whatever
/// follows it, and takes exactly the header and the payload off the bytes.
pub proof fn lemma_frame_round_trip(payload: Seq<u8>, rest: Seq<u8>, max_payload: u32)
    requires
        payload.len() <= max_payload,
    ensures
        parse_frame(frame_of(payload) + rest, max_payload) == (Parsed::Complete {
            header: MessageHeader { version: PROTOCOL_VERSION, length: payload.len() as u32 },
            payload,
            consumed: 8 + payload.len(),
        }),
{
    let header = MessageHeader { version: PROTOCOL_VERSION, length: payload.len() as u32 };
    let bytes = frame_of(payload) + rest;
    crate::protocol::lemma_header_round_trip(header);
    assert(bytes.subrange(0, 8) =~= header.spec_to_bytes());
    assert(bytes.subrange(8, 8 + header.length) =~= payload);
}

/// A decoded payload has exactly the length that its header announces, and
/// the frame ends where the payload does.
pub proof fn lemma_payload_length(bytes: Seq<u8>, max_payload: u32)
    ensures
        parse_frame(bytes, max_payload) matches Parsed::Complete { header, payload, consumed } ==> {
            &&& payload.len() == header.length
            &&& header.length <= max_payload
            &&& consumed == 8 + header.length
            &&& consumed <= bytes.len()
            &&& payload == bytes.subrange(8, consumed as int)
        },
{
}

} // verus!
