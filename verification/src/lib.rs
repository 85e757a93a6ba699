//! Binary codec for the RoboMaster referee-system serial protocol.
//!
//! A frame on the wire is a 5-byte header (magic `0xA5`, little-endian payload
//! length, sequence number, CRC-8 over the first four bytes), a 16-bit
//! little-endian command tag, the command payload, and a CRC-16 tail over
//! everything before it. The command payload is a closed tagged union of
//! message shapes, one of which (robot interaction data) carries a second
//! tagged union selected by an embedded sub-tag and the remaining byte count.

use vstd::prelude::*;

pub mod bits;
pub mod enums;
pub mod cmd;
pub mod codec;
pub mod robot_interaction;
pub mod frame;

verus! {

/// Which closed enumeration a raw wire value failed to match.
#[derive(Debug, Clone, Copy, PartialEq, Eq, Structural)]
pub enum EnumField {
    RobotId,
    EndpointId,
    GameType,
    GameProgress,
    GameResult,
    RefereeWarningLevel,
    OccupyType,
    DartTarget,
    DartSelectionTarget,
    HpDeductionReason,
    BulletType,
    ShooterNumber,
}

/// Everything that can go wrong while decoding a header, a payload or a frame.
///
/// Each variant is terminal for the decode attempt in progress; nothing is
/// retried internally and no checksum mismatch is downgraded.
#[derive(Debug, Clone, Copy, PartialEq, Eq, Structural)]
pub enum DecodeError {
    /// The first header byte is not the frame sentinel.
    BadMagic,
    /// The header's CRC-8 byte does not match the four bytes before it.
    BadChecksum,
    /// The frame's CRC-16 tail does not match the bytes before it.
    BadFrameChecksum,
    /// The 16-bit command tag names no known payload shape.
    UnknownCommand(u16),
    /// Fewer bytes remain than the selected shape requires.
    TruncatedPayload,
    /// More bytes remain than the selected shape allows.
    TrailingBytes,
    /// A length-driven payload declares fewer bytes than its fixed prefix.
    LengthUnderflow,
    /// A raw value matches no member of a closed enumeration.
    InvalidEnumValue(EnumField, u16),
}

} // verus!
