use vstd::prelude::*;
use crate::error::ClientError;

verus! {

/// Bytes of a request frame before the payload: the length and the code.
pub const REQUEST_INITIAL_BYTES_LENGTH: usize = 4;

/// Bytes of a response header: the status and the length.
pub const RESPONSE_INITIAL_BYTES_LENGTH: usize = 8;

/// The little-endian bytes of a 32-bit value.
pub open spec fn u32_le(x: u32) -> Seq<u8> {
    seq![
        (x % 256) as u8,
        (x / 256 % 256) as u8,
        (x / 256 / 256 % 256) as u8,
        (x / 256 / 256 / 256 % 256) as u8,
    ]
}

/// The value of four little-endian bytes.
pub open spec fn le_value(b: Seq<u8>) -> int {
    b[0] + 256 * b[1] + 65536 * b[2] + 16777216 * b[3]
}

/// The request frame for a command: the length of code and payload, the
/// code, then the payload, the two numbers little-endian.
pub open spec fn request_frame(code: u32, payload: Seq<u8>) -> Seq<u8> {
    u32_le((payload.len() + 4) as u32) + u32_le(code) + payload
}

/// The code and payload that a well-formed request frame carries.
pub open spec fn parse_request(frame: Seq<u8>) -> Option<(u32, Seq<u8>)> {
    if frame.len() >= 8 && le_value(frame.subrange(0, 4)) == frame.len() - 4 {
        Some((le_value(frame.subrange(4, 8)) as u32, frame.subrange(8, frame.len() as int)))
    } else {
        None
    }
}

/// Four bytes decode to the value that they were encoded from.
pub proof fn lemma_u32_le_value(x: u32)
    ensures
        le_value(u32_le(x)) == x,
        u32_le(x).len() == 4,
{
}

/// Four little-endian bytes always make a 32-bit value.
pub proof fn lemma_le_value_bounds(b: Seq<u8>)
    requires
        b.len() == 4,
    ensures
        0 <= le_value(b) <= u32::MAX,
        u32_le(le_value(b) as u32) == b,
{
    let v = le_value(b);
    assert(v / 256 == b[1] + 256 * b[2] + 65536 * b[3]);
    assert(v / 256 / 256 == b[2] + 256 * b[3]);
    assert(v / 256 / 256 / 256 == b[3]);
    assert(u32_le(v as u32) =~= b);
}

/// Decoding an encoded request gives back its code and payload.
pub proof fn lemma_parse_request_frame(code: u32, payload: Seq<u8>)
    requires
        payload.len() + 4 <= u32::MAX,
    ensures
        parse_request(request_frame(code, payload)) == Some((code, payload)),
{
    let f = request_frame(code, payload);
    lemma_u32_le_value((payload.len() + 4) as u32);
    lemma_u32_le_value(code);
    assert(f.subrange(0, 4) =~= u32_le((payload.len() + 4) as u32));
    assert(f.subrange(4, 8) =~= u32_le(code));
    assert(f.subrange(8, f.len() as int) =~= payload);
}

/// Encoding what a well-formed frame decodes to gives back the frame.
pub proof fn lemma_request_frame_of_parse(frame: Seq<u8>)
    requires
        parse_request(frame) is Some,
    ensures
        ({
            let (code, payload) = parse_request(frame)->0;
            payload.len() + 4 <= u32::MAX && request_frame(code, payload) == frame
        }),
{
    let (code, payload) = parse_request(frame)->0;
    lemma_le_value_bounds(frame.subrange(0, 4));
    lemma_le_value_bounds(frame.subrange(4, 8));
    assert(request_frame(code, payload) =~= frame);
}

/// Appends the little-endian bytes of `x`.
fn push_u32_le(buf: &mut Vec<u8>, x: u32)
    ensures
        final(buf)@ == old(buf)@ + u32_le(x),
{
    let q1 = x / 256;
    let q2 = q1 / 256;
    let q3 = q2 / 256;
    buf.push((x % 256) as u8);
    buf.push((q1 % 256) as u8);
    buf.push((q2 % 256) as u8);
    buf.push((q3 % 256) as u8);
    assert(final(buf)@ =~= old(buf)@ + u32_le(x));
}

/// Appends the bytes of `src`.
fn push_bytes(buf: &mut Vec<u8>, src: &[u8])
    ensures
        final(buf)@ == old(buf)@ + src@,
{
    let mut i: usize = 0;
    while i < src.len()
        invariant
            i <= src@.len(),
            buf@ == old(buf)@ + src@.subrange(0, i as int),
        decreases src@.len() - i,
    {
        buf.push(src[i]);
        i = i + 1;
        assert(buf@ =~= old(buf)@ + src@.subrange(0, i as int));
    }
    assert(src@.subrange(0, i as int) =~= src@);
}

/// Reads the 32-bit little-endian value at `at`.
fn read_u32_le(b: &[u8], at: usize) -> (r: u32)
    requires
        at + 4 <= b@.len(),
    ensures
        r == le_value(b@.subrange(at as int, at + 4)),
{
    let b0 = b[at] as u32;
    let b1 = b[at + 1] as u32;
    let b2 = b[at + 2] as u32;
    let b3 = b[at + 3] as u32;
    assert(b0 + 256 * b1 + 65536 * b2 + 16777216 * b3 <= u32::MAX) by (nonlinear_arith)
        requires
            b0 <= 255,
            b1 <= 255,
            b2 <= 255,
            b3 <= 255,
    ;
    b0 + 256 * b1 + 65536 * b2 + 16777216 * b3
}

/// Builds the request frame for `code` and `payload`.
pub fn encode_request(code: u32, payload: &[u8]) -> (r: Vec<u8>)
    requires
        payload@.len() + 4 <= u32::MAX,
    ensures
        r@ == request_frame(code, payload@),
{
    let total_len = payload.len() + REQUEST_INITIAL_BYTES_LENGTH;
    let mut buf: Vec<u8> = Vec::with_capacity(total_len);
    push_u32_le(&mut buf, total_len as u32);
    push_u32_le(&mut buf, code);
    push_bytes(&mut buf, payload);
    buf
}

/// Splits a request frame into its code and payload; `None` when the frame
/// is shorter than its two numbers or its length field does not match.
pub fn decode_request(frame: &[u8]) -> (r: Option<(u32, Vec<u8>)>)
    ensures
        match r {
            Some((code, payload)) => parse_request(frame@) == Some((code, payload@)),
            None => parse_request(frame@) is None,
        },
{
    if frame.len() < 8 {
        return None;
    }
    let len = read_u32_le(frame, 0);
    if len as usize != frame.len() - 4 {
        return None;
    }
    let code = read_u32_le(frame, 4);
    let mut payload: Vec<u8> = Vec::new();
    let mut i: usize = 8;
    while i < frame.len()
        invariant
            8 <= i <= frame@.len(),
            payload@ == frame@.subrange(8, i as int),
        decreases frame@.len() - i,
    {
        payload.push(frame[i]);
        i = i + 1;
        assert(payload@ =~= frame@.subrange(8, i as int));
    }
    Some((code, payload))
}

/// The status and length of a response header, or `EmptyResponse` when the
/// bytes read are not exactly eight.
pub open spec fn response_header(header: Seq<u8>) -> Result<(u32, u32), ClientError> {
    if header.len() != 8 {
        Err(ClientError::EmptyResponse)
    } else {
        Ok((le_value(header.subrange(0, 4)) as u32, le_value(header.subrange(4, 8)) as u32))
    }
}

/// Decodes the status and length from the bytes read for a response header.
pub fn decode_response_header(header: &[u8]) -> (r: Result<(u32, u32), ClientError>)
    ensures
        r == response_header(header@),
{
    if header.len() != RESPONSE_INITIAL_BYTES_LENGTH {
        return Err(ClientError::EmptyResponse);
    }
    let status = read_u32_le(header, 0);
    let length = read_u32_le(header, 4);
    Ok((status, length))
}

} // verus!
