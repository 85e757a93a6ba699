//! The frame layer: the five-byte header with its CRC-8 guard, and the two
//! checksum engines behind the whole frame's CRC-16 tail.
//!
//! A header destined for transmission is only produced by `recompute`, so
//! its checksum invariant holds by construction; on receipt the magic byte
//! and the checksum are validated before anything else is trusted.

use vstd::prelude::*;

use crate::DecodeError;
use crate::cmd::{CmdView, RefereeFrameCmdData, cmd_wf, spec_cmd_bytes, spec_cmd_decode, spec_body,
    lemma_robot_interaction_roundtrip};
use crate::codec::decode_cmd;
use crate::bits::push_bytes;
use vstd::slice::slice_subrange;
use crate::enums::EndpointId;
use crate::bits::{u16_le, u16_lo, u16_hi, u16_from_le, get_u16_le, lemma_u16_le_roundtrip,
    lemma_u16_from_le_split};

verus! {

/// The sentinel byte that starts every frame.
pub const FRAME_SOF: u8 = 0xA5;

/// The CRC-8 checksum of a byte sequence under this protocol's
/// configuration: polynomial 0x31, initial value 0xFF, no reflection, no
/// final xor. Named only; the engine itself is the outside checksum crate.
pub uninterp spec fn crc8_of(data: Seq<u8>) -> u8;

/// The CRC-16 checksum of a byte sequence under this protocol's
/// configuration: CCITT-FALSE, polynomial 0x1021, initial value 0xFFFF, no
/// reflection, no final xor. Named only; the engine is the outside crate.
pub uninterp spec fn crc16_of(data: Seq<u8>) -> u16;

/// Relies on crc's `Crc::<u8>::checksum` with the catalogue's NRSC-5
/// algorithm (poly 0x31, init 0xFF, no reflection, xorout 0, check 0xF7):
/// a pure function of the input bytes.
#[verifier::external_body]
pub fn crc8(data: &[u8]) -> (r: u8)
    ensures
        r == crc8_of(data@),
{
    crc::Crc::<u8>::new(&crc::CRC_8_NRSC_5).checksum(data)
}

/// Relies on crc's `Crc::<u16>::checksum` with the catalogue's IBM-3740
/// algorithm (CCITT-FALSE: poly 0x1021, init 0xFFFF, no reflection,
/// xorout 0, check 0x29B1): a pure function of the input bytes.
#[verifier::external_body]
pub fn crc16(data: &[u8]) -> (r: u16)
    ensures
        r == crc16_of(data@),
{
    crc::Crc::<u16>::new(&crc::CRC_16_IBM_3740).checksum(data)
}

/// The fixed five-byte frame header. `data_length` counts the command
/// payload's bytes after the two tag bytes.
#[derive(Debug, Clone, Copy, PartialEq, Eq, Structural)]
pub struct RefereeFrameHeader {
    pub data_length: u16,
    pub seq: u8,
    pub crc8: u8,
}

/// The four bytes that the header checksum covers: magic, length (little
/// endian), sequence.
pub open spec fn spec_header_guarded(data_length: u16, seq: u8) -> Seq<u8> {
    seq![FRAME_SOF, u16_lo(data_length), u16_hi(data_length), seq]
}

/// The exact five wire bytes of a header.
pub open spec fn spec_header_bytes(h: RefereeFrameHeader) -> Seq<u8> {
    seq![FRAME_SOF, u16_lo(h.data_length), u16_hi(h.data_length), h.seq, h.crc8]
}

/// A header whose checksum byte matches the four bytes before it — the
/// invariant every transmitted header carries.
pub open spec fn header_wf(h: RefereeFrameHeader) -> bool {
    h.crc8 == crc8_of(spec_header_guarded(h.data_length, h.seq))
}

/// The exact parse result of a header image: the magic gate, then the
/// checksum gate, then the fields. The image must be exactly five bytes;
/// anything after them is rejected, not ignored.
pub open spec fn spec_header_decode(b: Seq<u8>) -> Result<RefereeFrameHeader, DecodeError> {
    if b.len() < 5 {
        Err(DecodeError::TruncatedPayload)
    } else if b[0] != FRAME_SOF {
        Err(DecodeError::BadMagic)
    } else if b[4] != crc8_of(b.subrange(0, 4)) {
        Err(DecodeError::BadChecksum)
    } else if b.len() > 5 {
        Err(DecodeError::TrailingBytes)
    } else {
        Ok(RefereeFrameHeader {
            data_length: u16_from_le(b[1], b[2]),
            seq: b[3],
            crc8: b[4],
        })
    }
}

impl RefereeFrameHeader {
    /// The only supported way to produce a header for transmission: set the
    /// length and sequence, then derive the checksum byte from them.
    pub fn recompute(data_length: u16, seq: u8) -> (h: RefereeFrameHeader)
        ensures
            h.data_length == data_length,
            h.seq == seq,
            h.crc8 == crc8_of(spec_header_guarded(data_length, seq)),
            header_wf(h),
    {
        let mut guarded: Vec<u8> = Vec::new();
        guarded.push(FRAME_SOF);
        proof {
            lemma_u16_le_roundtrip(data_length);
        }
        guarded.push((data_length & 0xff) as u8);
        guarded.push(((data_length >> 8) & 0xff) as u8);
        guarded.push(seq);
        assert(guarded@ =~= spec_header_guarded(data_length, seq));
        let crc = crc8(guarded.as_slice());
        RefereeFrameHeader { data_length, seq, crc8: crc }
    }

    /// The five wire bytes of this header.
    pub fn encode(&self) -> (r: Vec<u8>)
        ensures
            r@ == spec_header_bytes(*self),
    {
        proof {
            lemma_u16_le_roundtrip(self.data_length);
        }
        let mut out: Vec<u8> = Vec::new();
        out.push(FRAME_SOF);
        out.push((self.data_length & 0xff) as u8);
        out.push(((self.data_length >> 8) & 0xff) as u8);
        out.push(self.seq);
        out.push(self.crc8);
        assert(out@ =~= spec_header_bytes(*self));
        out
    }

    /// Parse a header image of exactly five bytes, validating the magic
    /// byte and the checksum before anything else is trusted.
    pub fn decode(b: &[u8]) -> (r: Result<RefereeFrameHeader, DecodeError>)
        ensures
            r == spec_header_decode(b@),
            r matches Ok(h) ==> header_wf(h) && b@.len() >= 5,
    {
        if b.len() < 5 {
            return Err(DecodeError::TruncatedPayload);
        }
        if b[0] != FRAME_SOF {
            return Err(DecodeError::BadMagic);
        }
        let mut guarded: Vec<u8> = Vec::new();
        guarded.push(b[0]);
        guarded.push(b[1]);
        guarded.push(b[2]);
        guarded.push(b[3]);
        assert(guarded@ =~= b@.subrange(0, 4));
        let expected = crc8(guarded.as_slice());
        if b[4] != expected {
            return Err(DecodeError::BadChecksum);
        }
        if b.len() > 5 {
            return Err(DecodeError::TrailingBytes);
        }
        let h = RefereeFrameHeader {
            data_length: get_u16_le(b, 1),
            seq: b[3],
            crc8: b[4],
        };
        proof {
            lemma_u16_from_le_split(b@[1], b@[2]);
            assert(spec_header_guarded(h.data_length, h.seq) =~= b@.subrange(0, 4));
        }
        Ok(h)
    }
}

/// Round trip for the header: a recomputed header's five bytes decode back
/// to the same header, and its checksum is exactly the CRC-8 of magic,
/// length and sequence.
pub proof fn lemma_header_roundtrip(data_length: u16, seq: u8)
    ensures
        ({
            let h = RefereeFrameHeader {
                data_length,
                seq,
                crc8: crc8_of(spec_header_guarded(data_length, seq)),
            };
            spec_header_decode(spec_header_bytes(h)) == Ok::<RefereeFrameHeader, DecodeError>(h)
        }),
{
    let h = RefereeFrameHeader {
        data_length,
        seq,
        crc8: crc8_of(spec_header_guarded(data_length, seq)),
    };
    let b = spec_header_bytes(h);
    assert(b.subrange(0, 4) =~= spec_header_guarded(data_length, seq));
    lemma_u16_le_roundtrip(data_length);
}

/// Tamper detection at the header: changing the checksum byte of a
/// well-formed header's image makes decoding fail with `BadChecksum`.
pub proof fn lemma_header_tamper(h: RefereeFrameHeader, wrong: u8)
    requires
        header_wf(h),
        wrong != h.crc8,
    ensures
        spec_header_decode(spec_header_bytes(h).update(4, wrong))
            == Err::<RefereeFrameHeader, DecodeError>(DecodeError::BadChecksum),
{
    let b = spec_header_bytes(h).update(4, wrong);
    assert(b.subrange(0, 4) =~= spec_header_guarded(h.data_length, h.seq));
}

// ---------------------------------------------------------------------------
// The frame assembler
// ---------------------------------------------------------------------------

/// One whole frame: header, command payload, CRC-16 tail. A frame is fully
/// determined by its sequence number and payload; header and tail are
/// derived, never chosen.
pub struct FrameView {
    pub header: RefereeFrameHeader,
    pub cmd: CmdView,
    pub frame_tail: u16,
}

/// The exact wire bytes of a frame: header, tag and payload, tail.
pub open spec fn spec_frame_bytes(f: FrameView) -> Seq<u8> {
    spec_header_bytes(f.header) + spec_cmd_bytes(f.cmd) + u16_le(f.frame_tail)
}

/// Compose a frame for transmission: the header's length and checksum are
/// recomputed from the encoded payload, and the tail is the CRC-16 of the
/// encoded header and payload.
pub open spec fn spec_build_frame(seq: u8, c: CmdView) -> FrameView {
    let n = (spec_cmd_bytes(c).len() - 2) as u16;
    let h = RefereeFrameHeader {
        data_length: n,
        seq,
        crc8: crc8_of(spec_header_guarded(n, seq)),
    };
    FrameView {
        header: h,
        cmd: c,
        frame_tail: crc16_of(spec_header_bytes(h) + spec_cmd_bytes(c)),
    }
}

/// The exact parse result of a frame image, gate by gate: header magic and
/// checksum first, then the payload under the header's declared length,
/// then the CRC-16 tail. No gate may be skipped and none is advisory.
pub open spec fn spec_frame_decode(b: Seq<u8>) -> Result<FrameView, DecodeError> {
    if b.len() < 5 {
        Err(DecodeError::TruncatedPayload)
    } else {
        match spec_header_decode(b.subrange(0, 5)) {
            Err(e) => Err(e),
            Ok(h) => {
                let n = h.data_length as int;
                if b.len() < n + 9 {
                    Err(DecodeError::TruncatedPayload)
                } else if b.len() > n + 9 {
                    Err(DecodeError::TrailingBytes)
                } else {
                    match spec_cmd_decode(b.subrange(5, 7 + n)) {
                        Err(e) => Err(e),
                        Ok(c) => {
                            if u16_from_le(b[7 + n], b[8 + n]) != crc16_of(b.subrange(0, 7 + n)) {
                                Err(DecodeError::BadFrameChecksum)
                            } else {
                                Ok(FrameView {
                                    header: h,
                                    cmd: c,
                                    frame_tail: u16_from_le(b[7 + n], b[8 + n]),
                                })
                            }
                        },
                    }
                }
            },
        }
    }
}

/// Frame round trip, compositional in the payload: whenever the payload
/// itself round-trips, decoding an encoded built frame returns that frame,
/// and the wire image is exactly `data_length + 9` bytes long.
pub proof fn lemma_frame_roundtrip(seq: u8, c: CmdView)
    requires
        spec_cmd_bytes(c).len() <= 0xffff + 2,
        spec_cmd_bytes(c).len() >= 2,
        spec_cmd_decode(spec_cmd_bytes(c)) == Ok::<CmdView, DecodeError>(c),
    ensures
        ({
            let f = spec_build_frame(seq, c);
            spec_frame_decode(spec_frame_bytes(f)) == Ok::<FrameView, DecodeError>(f)
                && spec_frame_bytes(f).len() == f.header.data_length + 9
        }),
{
    let f = spec_build_frame(seq, c);
    let h = f.header;
    let n = h.data_length as int;
    let b = spec_frame_bytes(f);
    assert(b.len() == n + 9);
    assert(b.subrange(0, 5) =~= spec_header_bytes(h));
    assert(spec_header_bytes(h).subrange(0, 4) =~= spec_header_guarded(h.data_length, h.seq));
    lemma_u16_le_roundtrip(h.data_length);
    assert(spec_header_decode(b.subrange(0, 5)) == Ok::<RefereeFrameHeader, DecodeError>(h));
    assert(b.subrange(5, 7 + n) =~= spec_cmd_bytes(c));
    lemma_u16_le_roundtrip(f.frame_tail);
    assert(b[7 + n] == u16_lo(f.frame_tail) && b[8 + n] == u16_hi(f.frame_tail));
    assert(b.subrange(0, 7 + n) =~= spec_header_bytes(h) + spec_cmd_bytes(c));
}

/// Tamper detection at the tail: whenever the payload round-trips, a built
/// frame whose tail is replaced by any other value decodes to
/// `BadFrameChecksum` — flipping the last byte is one such change.
pub proof fn lemma_frame_tail_tamper(seq: u8, c: CmdView, wrong: u16)
    requires
        spec_cmd_bytes(c).len() <= 0xffff + 2,
        spec_cmd_bytes(c).len() >= 2,
        spec_cmd_decode(spec_cmd_bytes(c)) == Ok::<CmdView, DecodeError>(c),
        wrong != spec_build_frame(seq, c).frame_tail,
    ensures
        ({
            let f = spec_build_frame(seq, c);
            let tampered = spec_header_bytes(f.header) + spec_cmd_bytes(f.cmd) + u16_le(wrong);
            spec_frame_decode(tampered) == Err::<FrameView, DecodeError>(DecodeError::BadFrameChecksum)
        }),
{
    let f = spec_build_frame(seq, c);
    let h = f.header;
    let n = h.data_length as int;
    let b = spec_header_bytes(h) + spec_cmd_bytes(f.cmd) + u16_le(wrong);
    assert(b.len() == n + 9);
    assert(b.subrange(0, 5) =~= spec_header_bytes(h));
    assert(spec_header_bytes(h).subrange(0, 4) =~= spec_header_guarded(h.data_length, h.seq));
    lemma_u16_le_roundtrip(h.data_length);
    assert(spec_header_decode(b.subrange(0, 5)) == Ok::<RefereeFrameHeader, DecodeError>(h));
    assert(b.subrange(5, 7 + n) =~= spec_cmd_bytes(c));
    lemma_u16_le_roundtrip(wrong);
    assert(b[7 + n] == u16_lo(wrong) && b[8 + n] == u16_hi(wrong));
    assert(b.subrange(0, 7 + n) =~= spec_header_bytes(h) + spec_cmd_bytes(c));
}

/// Frame round trip, in full, for the length-driven interaction payload:
/// building, encoding and decoding a frame around any well-formed
/// robot-interaction payload returns exactly that frame.
pub proof fn lemma_frame_roundtrip_interaction(
    seq: u8,
    data_cmd_id: u16,
    sender_id: EndpointId,
    receiver_id: EndpointId,
    user_data: Seq<u8>,
)
    requires
        user_data.len() + 6 <= 0xffff,
    ensures
        ({
            let c = CmdView::RobotInteractionData {
                data_cmd_id, sender_id, receiver_id, user_data,
            };
            let f = spec_build_frame(seq, c);
            spec_frame_decode(spec_frame_bytes(f)) == Ok::<FrameView, DecodeError>(f)
        }),
{
    let c = CmdView::RobotInteractionData { data_cmd_id, sender_id, receiver_id, user_data };
    lemma_robot_interaction_roundtrip(data_cmd_id, sender_id, receiver_id, user_data);
    reveal(spec_body);
    assert(spec_cmd_bytes(c).len() == 8 + user_data.len());
    lemma_frame_roundtrip(seq, c);
}

/// Compose and encode a whole frame for transmission: the header is
/// recomputed from the encoded payload's length, and the CRC-16 tail is
/// computed over the encoded header and payload.
pub fn encode_frame(seq: u8, cmd: &RefereeFrameCmdData) -> (r: Vec<u8>)
    requires
        cmd_wf(cmd@),
        spec_cmd_bytes(cmd@).len() <= 0xffff + 2,
    ensures
        r@ == spec_frame_bytes(spec_build_frame(seq, cmd@)),
{
    let payload = cmd.encode();
    let n = (payload.len() - 2) as u16;
    let header = RefereeFrameHeader::recompute(n, seq);
    let mut out = header.encode();
    push_bytes(&mut out, &payload);
    assert(out@ =~= spec_header_bytes(header) + spec_cmd_bytes(cmd@));
    let tail = crc16(out.as_slice());
    proof {
        lemma_u16_le_roundtrip(tail);
        assert(spec_build_frame(seq, cmd@).header == header);
        assert(spec_build_frame(seq, cmd@).frame_tail == tail);
    }
    crate::bits::push_u16_le(&mut out, tail);
    assert(out@ =~= spec_frame_bytes(spec_build_frame(seq, cmd@)));
    out
}

/// Parse a whole frame, gate by gate: header magic and CRC-8, the payload
/// under the header's declared length, then the CRC-16 tail. The result is
/// exactly what `spec_frame_decode` gives for these bytes.
pub fn decode_frame(b: &[u8]) -> (r: Result<(RefereeFrameHeader, RefereeFrameCmdData, u16), DecodeError>)
    ensures
        r matches Ok(f) ==> spec_frame_decode(b@) == Ok::<FrameView, DecodeError>(FrameView {
            header: f.0,
            cmd: f.1@,
            frame_tail: f.2,
        }),
        r matches Err(e) ==> spec_frame_decode(b@) == Err::<FrameView, DecodeError>(e),
{
    if b.len() < 5 {
        return Err(DecodeError::TruncatedPayload);
    }
    let hs = slice_subrange(b, 0, 5);
    let header = match RefereeFrameHeader::decode(hs) {
        Ok(h) => h,
        Err(e) => {
            return Err(e);
        },
    };
    let n = header.data_length as usize;
    if b.len() < n + 9 {
        return Err(DecodeError::TruncatedPayload);
    }
    if b.len() > n + 9 {
        return Err(DecodeError::TrailingBytes);
    }
    let cs = slice_subrange(b, 5, 7 + n);
    let cmd = match decode_cmd(cs) {
        Ok(c) => c,
        Err(e) => {
            return Err(e);
        },
    };
    let tail = crc16(slice_subrange(b, 0, 7 + n));
    let got = get_u16_le(b, 7 + n);
    if got != tail {
        return Err(DecodeError::BadFrameChecksum);
    }
    Ok((header, cmd, got))
}

} // verus!
