//! Cutting one frame off the front of a buffer.
//!
//! On the wire a frame is the start byte `0xAA`, two bytes that hold the
//! payload length in their low twelve bits, the payload, and the end byte
//! `0x55`. The payload opens with the two header bytes. Both 16-bit fields
//! are big-endian.

use vstd::prelude::*;
use vstd::slice::slice_subrange;
use crate::edm::frame::{assemble, frame_result_view, EDMFrame, FrameView};
use crate::edm::header::{decode_header, header_identifier, header_type};
use crate::edm::types::EDMFrameError;

verus! {

/// The byte that opens a frame.
pub const EDM_START: u8 = 0xAA;

/// The byte that closes a frame.
pub const EDM_END: u8 = 0x55;

/// The bits of the length field that hold the payload length. The four bits
/// above them are reserved and ignored.
pub const EDM_LENGTH_MASK: u16 = 0x0FFF;

/// The bytes of a frame that are not payload: start byte, length field and
/// end byte.
pub const EDM_OVERHEAD: usize = 4;

/// The length of the shortest frame: start byte, length field, header and
/// end byte.
pub const EDM_MIN_FRAME: usize = 6;

/// The 16-bit value that two bytes spell in big-endian order.
pub open spec fn be_u16(hi: u8, lo: u8) -> u16 {
    (256 * hi + lo) as u16
}

/// The payload length that the length field of `s` announces. It is
/// meaningful when `s` has at least three bytes.
pub open spec fn frame_payload_len(s: Seq<u8>) -> nat {
    (be_u16(s[1], s[2]) & EDM_LENGTH_MASK) as nat
}

/// The number of bytes that the frame at the front of `s` takes, from its
/// start byte to its end byte.
pub open spec fn frame_len(s: Seq<u8>) -> nat {
    frame_payload_len(s) + EDM_OVERHEAD as nat
}

/// `s` opens with a frame: a start byte, a length field, a payload of the
/// announced length that has room for the header, and an end byte.
pub open spec fn well_framed(s: Seq<u8>) -> bool {
    &&& s.len() >= 3
    &&& s[0] == EDM_START
    &&& frame_payload_len(s) >= 2
    &&& s.len() >= frame_len(s)
    &&& s[frame_len(s) - 1] == EDM_END
}

/// The header of the frame at the front of `s`.
pub open spec fn frame_header(s: Seq<u8>) -> u16 {
    be_u16(s[3], s[4])
}

/// The bytes of the frame at the front of `s` that follow its header.
pub open spec fn frame_body(s: Seq<u8>) -> Seq<u8> {
    s.subrange(5, frame_len(s) - 1)
}

/// What the frame at the front of `s` decodes to.
pub open spec fn frame_result(s: Seq<u8>) -> Result<FrameView, EDMFrameError> {
    assemble(
        header_identifier(frame_header(s)),
        header_type(frame_header(s)),
        frame_body(s),
    )
}

/// What one attempt to cut a frame off the front of `s` gives: the bytes
/// after the frame and what the frame decodes to, or `MalformedFraming`
/// when `s` does not open with a frame.
pub open spec fn parse_frame(s: Seq<u8>) -> Result<
    (Seq<u8>, Result<FrameView, EDMFrameError>),
    EDMFrameError,
> {
    if well_framed(s) {
        Ok((s.skip(frame_len(s) as int), frame_result(s)))
    } else {
        Err(EDMFrameError::MalformedFraming)
    }
}

/// The result of `parse_edm` with slices and frames replaced by their views.
pub open spec fn parse_result_view(
    r: Result<(&[u8], Result<EDMFrame<'_>, EDMFrameError>), EDMFrameError>,
) -> Result<(Seq<u8>, Result<FrameView, EDMFrameError>), EDMFrameError> {
    match r {
        Ok((rest, frame)) => Ok((rest@, frame_result_view(frame))),
        Err(e) => Err(e),
    }
}

/// A frame takes at least six bytes and at most 4099, and lies within the
/// bytes that open with it.
pub proof fn lemma_frame_len_bound(s: Seq<u8>)
    ensures
        4 <= frame_len(s) <= 0x0FFF + 4,
        well_framed(s) ==> EDM_MIN_FRAME <= frame_len(s) <= s.len(),
{
    let v = be_u16(s[1], s[2]);
    assert(v & 0x0FFF <= 0x0FFF) by (bit_vector);
}

/// A buffer that ends before the frame that its length field announces is
/// complete does not open with a frame.
pub proof fn lemma_truncated_frame(s: Seq<u8>)
    requires
        s.len() < frame_len(s),
    ensures
        parse_frame(s) == Err::<(Seq<u8>, Result<FrameView, EDMFrameError>), EDMFrameError>(
            EDMFrameError::MalformedFraming,
        ),
{
}

/// The payload length that a length field announces is below 4096, and the
/// four reserved bits of the field do not change it.
pub proof fn lemma_payload_len_ignores_reserved_bits(flags_len: u16)
    ensures
        flags_len & EDM_LENGTH_MASK == flags_len % 0x1000,
        flags_len & EDM_LENGTH_MASK < 0x1000,
{
    assert(flags_len & 0x0FFF == flags_len % 0x1000) by (bit_vector);
}

/// Reads two bytes as a big-endian 16-bit value.
fn read_be_u16(hi: u8, lo: u8) -> (v: u16)
    ensures
        v == be_u16(hi, lo),
{
    let h: u16 = hi as u16;
    let l: u16 = lo as u16;
    h * 256 + l
}

/// The payload length in a length field: its low twelve bits.
fn payload_len_of(flags_len: u16) -> (n: usize)
    ensures
        n == (flags_len & EDM_LENGTH_MASK),
        n <= 0x0FFF,
{
    assert(flags_len & 0x0FFF <= 0x0FFF) by (bit_vector);
    (flags_len & EDM_LENGTH_MASK) as usize
}

/// Cuts the frame at the front of `input` out of it, if `input` opens with
/// one: the result is the span from the first header byte to the last
/// payload byte, and the bytes after the end byte.
fn split_frame<'a>(input: &'a [u8]) -> (r: Option<(&'a [u8], &'a [u8])>)
    ensures
        r is Some <==> well_framed(input@),
        r matches Some((payload, rest)) ==> payload@ == input@.subrange(3, frame_len(input@) - 1)
            && rest@ == input@.skip(frame_len(input@) as int),
{
    let n: usize = input.len();
    if n < 3 {
        return None;
    }
    if input[0] != EDM_START {
        return None;
    }
    let len: usize = payload_len_of(read_be_u16(input[1], input[2]));
    if len < 2 {
        return None;
    }
    if n - 3 <= len {
        return None;
    }
    if input[3 + len] != EDM_END {
        return None;
    }
    Some((slice_subrange(input, 3, 3 + len), slice_subrange(input, len + EDM_OVERHEAD, n)))
}

/// Makes one attempt to cut a frame off the front of `input` and to decode
/// it.
///
/// Where `input` opens with a frame, the result is `Ok` of the bytes that
/// follow the frame's end byte and of what the frame decodes to: the frame,
/// or the reason why header and body make none. Otherwise the result is
/// `Err(MalformedFraming)`: on fewer than three bytes, on a first byte other
/// than `0xAA`, on an announced payload of fewer than two bytes, on fewer
/// bytes than the announced length and the end byte take, and on a byte
/// other than `0x55` where the end byte should stand.
pub fn parse_edm<'a>(input: &'a [u8]) -> (r: Result<
    (&'a [u8], Result<EDMFrame<'a>, EDMFrameError>),
    EDMFrameError,
>)
    ensures
        parse_result_view(r) == parse_frame(input@),
        r is Ok <==> well_framed(input@),
        r matches Ok((rest, Ok(frame))) ==> frame.wf(),
{
    match split_frame(input) {
        None => Err(EDMFrameError::MalformedFraming),
        Some((payload, rest)) => {
            let (id, ftype) = decode_header(read_be_u16(payload[0], payload[1]));
            let body = slice_subrange(payload, 2, payload.len());
            assert(body@ == frame_body(input@));
            let frame = EDMFrame::from_parts(id, ftype, body);
            Ok((rest, frame))
        },
    }
}

} // verus!
