//! The second-level tagged union carried inside a robot-interaction payload.
//!
//! The outer frame is already validated when this dispatch runs, so a
//! sub-tag with no known mapping, or a byte count that does not match the
//! mapped size, yields no interpretation rather than a hard error.

use vstd::prelude::*;

use crate::bits::{low16_32, mask8, get_u32_be, u32_from_be, bytes_to_vec};
use vstd::slice::slice_subrange;
use crate::cmd::{CmdView, RefereeFrameCmdData};

verus! {

/// What a layer-delete request removes, stored in one byte.
#[derive(Debug, Clone, Copy, PartialEq, Eq, Structural)]
pub enum LayerDeleteType {
    NoneOp,
    DeleteLayer,
    DeleteAll,
}

impl LayerDeleteType {
    #[verifier::opaque]
    pub open spec fn spec_raw(self) -> u8 {
        match self {
            LayerDeleteType::NoneOp => 0x0,
            LayerDeleteType::DeleteLayer => 0x1,
            LayerDeleteType::DeleteAll => 0x2,
        }
    }

    pub fn raw(self) -> (r: u8)
        ensures
            r == self.spec_raw(),
    {
        proof {
            reveal(LayerDeleteType::spec_raw);
        }
        match self {
            LayerDeleteType::NoneOp => 0x0,
            LayerDeleteType::DeleteLayer => 0x1,
            LayerDeleteType::DeleteAll => 0x2,
        }
    }

    #[verifier::opaque]
    pub open spec fn spec_from_raw(raw: u8) -> Option<LayerDeleteType> {
        if raw == 0x0 {
            Some(LayerDeleteType::NoneOp)
        } else if raw == 0x1 {
            Some(LayerDeleteType::DeleteLayer)
        } else if raw == 0x2 {
            Some(LayerDeleteType::DeleteAll)
        } else {
            None
        }
    }

    pub fn from_raw(raw: u8) -> (r: Option<LayerDeleteType>)
        ensures
            r == Self::spec_from_raw(raw),
    {
        proof {
            reveal(LayerDeleteType::spec_from_raw);
        }
        if raw == 0x0 {
            Some(LayerDeleteType::NoneOp)
        } else if raw == 0x1 {
            Some(LayerDeleteType::DeleteLayer)
        } else if raw == 0x2 {
            Some(LayerDeleteType::DeleteAll)
        } else {
            None
        }
    }

    /// Every member's raw value is in range and maps back to that member
    /// alone.
    pub proof fn lemma_raw_roundtrip(self)
        ensures
            Self::spec_from_raw(self.spec_raw()) == Some(self),
            self.spec_raw() <= 0x2,
    {
        reveal(LayerDeleteType::spec_raw);
        reveal(LayerDeleteType::spec_from_raw);
    }
}

/// What a figure record does, stored in a 3-bit field.
#[derive(Debug, Clone, Copy, PartialEq, Eq, Structural)]
pub enum FigureOperateType {
    NoneOp,
    Add,
    Modify,
    Delete,
}

impl FigureOperateType {
    #[verifier::opaque]
    pub open spec fn spec_raw(self) -> u8 {
        match self {
            FigureOperateType::NoneOp => 0x0,
            FigureOperateType::Add => 0x1,
            FigureOperateType::Modify => 0x2,
            FigureOperateType::Delete => 0x3,
        }
    }

    pub fn raw(self) -> (r: u8)
        ensures
            r == self.spec_raw(),
    {
        proof {
            reveal(FigureOperateType::spec_raw);
        }
        match self {
            FigureOperateType::NoneOp => 0x0,
            FigureOperateType::Add => 0x1,
            FigureOperateType::Modify => 0x2,
            FigureOperateType::Delete => 0x3,
        }
    }

    #[verifier::opaque]
    pub open spec fn spec_from_raw(raw: u8) -> Option<FigureOperateType> {
        if raw == 0x0 {
            Some(FigureOperateType::NoneOp)
        } else if raw == 0x1 {
            Some(FigureOperateType::Add)
        } else if raw == 0x2 {
            Some(FigureOperateType::Modify)
        } else if raw == 0x3 {
            Some(FigureOperateType::Delete)
        } else {
            None
        }
    }

    pub fn from_raw(raw: u8) -> (r: Option<FigureOperateType>)
        ensures
            r == Self::spec_from_raw(raw),
    {
        proof {
            reveal(FigureOperateType::spec_from_raw);
        }
        if raw == 0x0 {
            Some(FigureOperateType::NoneOp)
        } else if raw == 0x1 {
            Some(FigureOperateType::Add)
        } else if raw == 0x2 {
            Some(FigureOperateType::Modify)
        } else if raw == 0x3 {
            Some(FigureOperateType::Delete)
        } else {
            None
        }
    }

    /// Every member's raw value is in range and maps back to that member
    /// alone.
    pub proof fn lemma_raw_roundtrip(self)
        ensures
            Self::spec_from_raw(self.spec_raw()) == Some(self),
            self.spec_raw() <= 0x3,
    {
        reveal(FigureOperateType::spec_raw);
        reveal(FigureOperateType::spec_from_raw);
    }
}

/// The drawn shape, stored in a 3-bit field.
#[derive(Debug, Clone, Copy, PartialEq, Eq, Structural)]
pub enum FigureType {
    Line,
    Rectangle,
    Circle,
    Ellipse,
    Arc,
    Float,
    Int,
    Char,
}

impl FigureType {
    #[verifier::opaque]
    pub open spec fn spec_raw(self) -> u8 {
        match self {
            FigureType::Line => 0x0,
            FigureType::Rectangle => 0x1,
            FigureType::Circle => 0x2,
            FigureType::Ellipse => 0x3,
            FigureType::Arc => 0x4,
            FigureType::Float => 0x5,
            FigureType::Int => 0x6,
            FigureType::Char => 0x7,
        }
    }

    pub fn raw(self) -> (r: u8)
        ensures
            r == self.spec_raw(),
    {
        proof {
            reveal(FigureType::spec_raw);
        }
        match self {
            FigureType::Line => 0x0,
            FigureType::Rectangle => 0x1,
            FigureType::Circle => 0x2,
            FigureType::Ellipse => 0x3,
            FigureType::Arc => 0x4,
            FigureType::Float => 0x5,
            FigureType::Int => 0x6,
            FigureType::Char => 0x7,
        }
    }

    #[verifier::opaque]
    pub open spec fn spec_from_raw(raw: u8) -> Option<FigureType> {
        if raw == 0x0 {
            Some(FigureType::Line)
        } else if raw == 0x1 {
            Some(FigureType::Rectangle)
        } else if raw == 0x2 {
            Some(FigureType::Circle)
        } else if raw == 0x3 {
            Some(FigureType::Ellipse)
        } else if raw == 0x4 {
            Some(FigureType::Arc)
        } else if raw == 0x5 {
            Some(FigureType::Float)
        } else if raw == 0x6 {
            Some(FigureType::Int)
        } else if raw == 0x7 {
            Some(FigureType::Char)
        } else {
            None
        }
    }

    pub fn from_raw(raw: u8) -> (r: Option<FigureType>)
        ensures
            r == Self::spec_from_raw(raw),
    {
        proof {
            reveal(FigureType::spec_from_raw);
        }
        if raw == 0x0 {
            Some(FigureType::Line)
        } else if raw == 0x1 {
            Some(FigureType::Rectangle)
        } else if raw == 0x2 {
            Some(FigureType::Circle)
        } else if raw == 0x3 {
            Some(FigureType::Ellipse)
        } else if raw == 0x4 {
            Some(FigureType::Arc)
        } else if raw == 0x5 {
            Some(FigureType::Float)
        } else if raw == 0x6 {
            Some(FigureType::Int)
        } else if raw == 0x7 {
            Some(FigureType::Char)
        } else {
            None
        }
    }

    /// Every member's raw value is in range and maps back to that member
    /// alone.
    pub proof fn lemma_raw_roundtrip(self)
        ensures
            Self::spec_from_raw(self.spec_raw()) == Some(self),
            self.spec_raw() <= 0x7,
    {
        reveal(FigureType::spec_raw);
        reveal(FigureType::spec_from_raw);
    }
}

/// The drawing colour, stored in a 4-bit field.
#[derive(Debug, Clone, Copy, PartialEq, Eq, Structural)]
pub enum FigureColor {
    SelfColor,
    Yellow,
    Green,
    Orange,
    Magenta,
    Pink,
    Cyan,
    Black,
    White,
}

impl FigureColor {
    #[verifier::opaque]
    pub open spec fn spec_raw(self) -> u8 {
        match self {
            FigureColor::SelfColor => 0x0,
            FigureColor::Yellow => 0x1,
            FigureColor::Green => 0x2,
            FigureColor::Orange => 0x3,
            FigureColor::Magenta => 0x4,
            FigureColor::Pink => 0x5,
            FigureColor::Cyan => 0x6,
            FigureColor::Black => 0x7,
            FigureColor::White => 0x8,
        }
    }

    pub fn raw(self) -> (r: u8)
        ensures
            r == self.spec_raw(),
    {
        proof {
            reveal(FigureColor::spec_raw);
        }
        match self {
            FigureColor::SelfColor => 0x0,
            FigureColor::Yellow => 0x1,
            FigureColor::Green => 0x2,
            FigureColor::Orange => 0x3,
            FigureColor::Magenta => 0x4,
            FigureColor::Pink => 0x5,
            FigureColor::Cyan => 0x6,
            FigureColor::Black => 0x7,
            FigureColor::White => 0x8,
        }
    }

    #[verifier::opaque]
    pub open spec fn spec_from_raw(raw: u8) -> Option<FigureColor> {
        if raw == 0x0 {
            Some(FigureColor::SelfColor)
        } else if raw == 0x1 {
            Some(FigureColor::Yellow)
        } else if raw == 0x2 {
            Some(FigureColor::Green)
        } else if raw == 0x3 {
            Some(FigureColor::Orange)
        } else if raw == 0x4 {
            Some(FigureColor::Magenta)
        } else if raw == 0x5 {
            Some(FigureColor::Pink)
        } else if raw == 0x6 {
            Some(FigureColor::Cyan)
        } else if raw == 0x7 {
            Some(FigureColor::Black)
        } else if raw == 0x8 {
            Some(FigureColor::White)
        } else {
            None
        }
    }

    pub fn from_raw(raw: u8) -> (r: Option<FigureColor>)
        ensures
            r == Self::spec_from_raw(raw),
    {
        proof {
            reveal(FigureColor::spec_from_raw);
        }
        if raw == 0x0 {
            Some(FigureColor::SelfColor)
        } else if raw == 0x1 {
            Some(FigureColor::Yellow)
        } else if raw == 0x2 {
            Some(FigureColor::Green)
        } else if raw == 0x3 {
            Some(FigureColor::Orange)
        } else if raw == 0x4 {
            Some(FigureColor::Magenta)
        } else if raw == 0x5 {
            Some(FigureColor::Pink)
        } else if raw == 0x6 {
            Some(FigureColor::Cyan)
        } else if raw == 0x7 {
            Some(FigureColor::Black)
        } else if raw == 0x8 {
            Some(FigureColor::White)
        } else {
            None
        }
    }

    /// Every member's raw value is in range and maps back to that member
    /// alone.
    pub proof fn lemma_raw_roundtrip(self)
        ensures
            Self::spec_from_raw(self.spec_raw()) == Some(self),
            self.spec_raw() <= 0x8,
    {
        reveal(FigureColor::spec_raw);
        reveal(FigureColor::spec_from_raw);
    }
}

/// The sentry's autonomy word: two confirmation flags, an eleven-bit
/// exchange amount (low byte first on the wire), and two four-bit counters.
#[derive(Debug, Clone, Copy, PartialEq, Eq, Structural)]
pub struct SentryCmd {
    pub confirm_revive: bool,
    pub confirm_immediate_revive: bool,
    pub exchange_projectile_allowance: u16,
    pub remote_exchange_projectile_count: u8,
    pub remote_exchange_hp_count: u8,
}

/// The radar's autonomy request, one byte.
#[derive(Debug, Clone, Copy, PartialEq, Eq, Structural)]
pub struct RadarCmd {
    pub radar_cmd: u8,
}

/// A layer-delete request: what to remove and from which layer.
#[derive(Debug, Clone, Copy, PartialEq, Eq, Structural)]
pub struct InteractionLayerDelete {
    pub delete_type: LayerDeleteType,
    pub layer: u8,
}

/// One drawn figure: a three-byte name and three 32-bit bit-field groups.
#[derive(Debug, Clone, Copy, PartialEq, Eq)]
pub struct InteractionFigure {
    pub figure_name: [u8; 3],
    pub operate_type: FigureOperateType,
    pub figure_type: FigureType,
    pub layer: u8,
    pub color: FigureColor,
    pub details_a: u16,
    pub details_b: u16,
    pub width: u16,
    pub start_x: u16,
    pub start_y: u16,
    pub details_c: u16,
    pub details_d: u16,
    pub details_e: u16,
}

/// The decoded content of a robot-interaction payload, keyed by its sub-tag
/// and exact byte count.
#[derive(Debug, Clone, PartialEq)]
pub enum RobotInteractionUserData {
    LayerDelete(InteractionLayerDelete),
    Figure(InteractionFigure),
    Figures2([InteractionFigure; 2]),
    Figures5([InteractionFigure; 5]),
    Figures7([InteractionFigure; 7]),
    CustomCharacter { figure: InteractionFigure, data: [u8; 30] },
    SentryCmd(SentryCmd),
    RadarCmd(RadarCmd),
}

// ---------------------------------------------------------------------------
// The sentry word
// ---------------------------------------------------------------------------

/// The exact sentry command read from a four-byte body. Total: every
/// four-byte body decodes to exactly these fields.
pub open spec fn spec_sentry_cmd(b: Seq<u8>) -> SentryCmd {
    let w = u32_from_be(b[0], b[1], b[2], b[3]);
    SentryCmd {
        confirm_revive: (w >> 31) & 1 == 1,
        confirm_immediate_revive: (w >> 30) & 1 == 1,
        exchange_projectile_allowance: ((((w >> 22) & 0xff) | (((w >> 19) & 7) << 8))
            & 0xffff) as u16,
        remote_exchange_projectile_count: ((w >> 15) & 0xf) as u8,
        remote_exchange_hp_count: ((w >> 11) & 0xf) as u8,
    }
}

/// Parse the four-byte sentry autonomy command.
pub fn sentry_cmd_from_bytes(b: &[u8]) -> (r: Option<SentryCmd>)
    ensures
        r == if b@.len() == 4 {
            Some(spec_sentry_cmd(b@))
        } else {
            Option::<SentryCmd>::None
        },
{
    if b.len() != 4 {
        return None;
    }
    let w = get_u32_be(b, 0);
    Some(SentryCmd {
        confirm_revive: (w >> 31) & 1 == 1,
        confirm_immediate_revive: (w >> 30) & 1 == 1,
        exchange_projectile_allowance: low16_32(((w >> 22) & 0xff) | (((w >> 19) & 7) << 8)),
        remote_exchange_projectile_count: mask8(w >> 15, 0xf),
        remote_exchange_hp_count: mask8(w >> 11, 0xf),
    })
}

/// Parse the one-byte radar autonomy command.
pub fn radar_cmd_from_bytes(b: &[u8]) -> (r: Option<RadarCmd>)
    ensures
        r == if b@.len() == 1 {
            Some(RadarCmd { radar_cmd: b@[0] })
        } else {
            Option::<RadarCmd>::None
        },
{
    if b.len() != 1 {
        return None;
    }
    Some(RadarCmd { radar_cmd: b[0] })
}

/// The exact layer-delete record read from a two-byte body, or nothing when
/// the delete kind is out of its set.
pub open spec fn spec_layer_delete(b: Seq<u8>) -> Option<InteractionLayerDelete> {
    match LayerDeleteType::spec_from_raw(b[0]) {
        None => None,
        Some(delete_type) => Some(InteractionLayerDelete { delete_type, layer: b[1] }),
    }
}

/// Parse the two-byte layer-delete record.
pub fn layer_delete_from_bytes(b: &[u8]) -> (r: Option<InteractionLayerDelete>)
    ensures
        r == if b@.len() == 2 {
            spec_layer_delete(b@)
        } else {
            Option::<InteractionLayerDelete>::None
        },
{
    if b.len() != 2 {
        return None;
    }
    match LayerDeleteType::from_raw(b[0]) {
        None => None,
        Some(delete_type) => Some(InteractionLayerDelete { delete_type, layer: b[1] }),
    }
}

// ---------------------------------------------------------------------------
// Dispatch helpers on a decoded payload
// ---------------------------------------------------------------------------

/// The sentry command that a decoded payload yields: only a
/// robot-interaction payload with sub-tag 0x0120 and exactly four user
/// bytes yields one.
pub open spec fn spec_as_sentry_cmd(c: CmdView) -> Option<SentryCmd> {
    match c {
        CmdView::RobotInteractionData { data_cmd_id, user_data, .. } => {
            if data_cmd_id == 0x0120 && user_data.len() == 4 {
                Some(spec_sentry_cmd(user_data))
            } else {
                None
            }
        },
        _ => None,
    }
}

/// The radar command that a decoded payload yields: only a
/// robot-interaction payload with sub-tag 0x0121 and exactly one user byte
/// yields one.
pub open spec fn spec_as_radar_cmd(c: CmdView) -> Option<RadarCmd> {
    match c {
        CmdView::RobotInteractionData { data_cmd_id, user_data, .. } => {
            if data_cmd_id == 0x0121 && user_data.len() == 1 {
                Some(RadarCmd { radar_cmd: user_data[0] })
            } else {
                None
            }
        },
        _ => None,
    }
}

/// The raw robot-to-robot bytes that a decoded payload yields: only a
/// robot-interaction payload whose sub-tag lies in 0x0200..=0x02FF yields
/// them, unchanged and uninterpreted.
pub open spec fn spec_as_robot_comm_raw(c: CmdView) -> Option<Seq<u8>> {
    match c {
        CmdView::RobotInteractionData { data_cmd_id, user_data, .. } => {
            if 0x0200 <= data_cmd_id && data_cmd_id <= 0x02FF {
                Some(user_data)
            } else {
                None
            }
        },
        _ => None,
    }
}

impl RefereeFrameCmdData {
    /// The sentry autonomy command carried by this payload, if any.
    pub fn as_sentry_cmd(&self) -> (r: Option<SentryCmd>)
        ensures
            r == spec_as_sentry_cmd(self@),
    {
        match self {
            RefereeFrameCmdData::RobotInteractionData { data_cmd_id, user_data, .. } => {
                if *data_cmd_id == 0x0120 && user_data.len() == 4 {
                    sentry_cmd_from_bytes(user_data.as_slice())
                } else {
                    None
                }
            },
            _ => None,
        }
    }

    /// The radar autonomy command carried by this payload, if any.
    pub fn as_radar_cmd(&self) -> (r: Option<RadarCmd>)
        ensures
            r == spec_as_radar_cmd(self@),
    {
        match self {
            RefereeFrameCmdData::RobotInteractionData { data_cmd_id, user_data, .. } => {
                if *data_cmd_id == 0x0121 && user_data.len() == 1 {
                    radar_cmd_from_bytes(user_data.as_slice())
                } else {
                    None
                }
            },
            _ => None,
        }
    }

    /// The uninterpreted robot-to-robot bytes carried by this payload, if
    /// its sub-tag lies in the range reserved for them.
    pub fn as_robot_comm_raw(&self) -> (r: Option<&[u8]>)
        ensures
            r matches Some(s) ==> spec_as_robot_comm_raw(self@) == Some(s@),
            r is None ==> spec_as_robot_comm_raw(self@) is None,
    {
        match self {
            RefereeFrameCmdData::RobotInteractionData { data_cmd_id, user_data, .. } => {
                if 0x0200 <= *data_cmd_id && *data_cmd_id <= 0x02FF {
                    Some(user_data.as_slice())
                } else {
                    None
                }
            },
            _ => None,
        }
    }
}

// ---------------------------------------------------------------------------
// Figures and the full dispatch
// ---------------------------------------------------------------------------

/// The mathematical image of a figure record: the three name bytes as a
/// sequence, every other field as itself.
pub struct FigureView {
    pub figure_name: Seq<u8>,
    pub operate_type: FigureOperateType,
    pub figure_type: FigureType,
    pub layer: u8,
    pub color: FigureColor,
    pub details_a: u16,
    pub details_b: u16,
    pub width: u16,
    pub start_x: u16,
    pub start_y: u16,
    pub details_c: u16,
    pub details_d: u16,
    pub details_e: u16,
}

impl View for InteractionFigure {
    type V = FigureView;

    open spec fn view(&self) -> FigureView {
        FigureView {
            figure_name: self.figure_name@,
            operate_type: self.operate_type,
            figure_type: self.figure_type,
            layer: self.layer,
            color: self.color,
            details_a: self.details_a,
            details_b: self.details_b,
            width: self.width,
            start_x: self.start_x,
            start_y: self.start_y,
            details_c: self.details_c,
            details_d: self.details_d,
            details_e: self.details_e,
        }
    }
}

/// The mathematical image of a decoded sub-payload: figures and raw bytes
/// as sequences, everything else as itself.
pub enum UserDataView {
    LayerDelete(InteractionLayerDelete),
    Figure(FigureView),
    Figures2(Seq<FigureView>),
    Figures5(Seq<FigureView>),
    Figures7(Seq<FigureView>),
    CustomCharacter { figure: FigureView, data: Seq<u8> },
    SentryCmd(SentryCmd),
    RadarCmd(RadarCmd),
}

impl View for RobotInteractionUserData {
    type V = UserDataView;

    open spec fn view(&self) -> UserDataView {
        match self {
            RobotInteractionUserData::LayerDelete(d) => UserDataView::LayerDelete(*d),
            RobotInteractionUserData::Figure(f) => UserDataView::Figure(f@),
            RobotInteractionUserData::Figures2(a) => UserDataView::Figures2(
                a@.map_values(|f: InteractionFigure| f@),
            ),
            RobotInteractionUserData::Figures5(a) => UserDataView::Figures5(
                a@.map_values(|f: InteractionFigure| f@),
            ),
            RobotInteractionUserData::Figures7(a) => UserDataView::Figures7(
                a@.map_values(|f: InteractionFigure| f@),
            ),
            RobotInteractionUserData::CustomCharacter { figure, data } =>
                UserDataView::CustomCharacter { figure: figure@, data: data@ },
            RobotInteractionUserData::SentryCmd(c) => UserDataView::SentryCmd(*c),
            RobotInteractionUserData::RadarCmd(c) => UserDataView::RadarCmd(*c),
        }
    }
}

/// The exact figure read from a fifteen-byte record: three name bytes, then
/// three 32-bit bit-field groups, or nothing when an enumeration field is
/// out of its set.
#[verifier::opaque]
pub open spec fn spec_figure(b: Seq<u8>) -> Option<FigureView> {
    let w1 = u32_from_be(b[3], b[4], b[5], b[6]);
    let w2 = u32_from_be(b[7], b[8], b[9], b[10]);
    let w3 = u32_from_be(b[11], b[12], b[13], b[14]);
    match FigureOperateType::spec_from_raw(((w1 >> 29) & 7) as u8) {
        None => None,
        Some(operate_type) => match FigureType::spec_from_raw(((w1 >> 26) & 7) as u8) {
            None => None,
            Some(figure_type) => match FigureColor::spec_from_raw(((w1 >> 18) & 0xf) as u8) {
                None => None,
                Some(color) => Some(FigureView {
                    figure_name: b.subrange(0, 3),
                    operate_type,
                    figure_type,
                    layer: ((w1 >> 22) & 0xf) as u8,
                    color,
                    details_a: ((((w1 >> 10) & 0xff) | (((w1 >> 9) & 1) << 8)) & 0xffff) as u16,
                    details_b: ((((w1 >> 1) & 0xff) | ((w1 & 1) << 8)) & 0xffff) as u16,
                    width: ((((w2 >> 24) & 0xff) | (((w2 >> 22) & 3) << 8)) & 0xffff) as u16,
                    start_x: ((((w2 >> 14) & 0xff) | (((w2 >> 11) & 7) << 8)) & 0xffff) as u16,
                    start_y: ((((w2 >> 3) & 0xff) | ((w2 & 7) << 8)) & 0xffff) as u16,
                    details_c: ((((w3 >> 24) & 0xff) | (((w3 >> 22) & 3) << 8)) & 0xffff) as u16,
                    details_d: ((((w3 >> 14) & 0xff) | (((w3 >> 11) & 7) << 8)) & 0xffff) as u16,
                    details_e: ((((w3 >> 3) & 0xff) | ((w3 & 7) << 8)) & 0xffff) as u16,
                }),
            },
        },
    }
}

/// The view of a parsed figure, for tying the parser to its specification.
pub open spec fn figure_opt_view(r: Option<InteractionFigure>) -> Option<FigureView> {
    match r {
        Some(f) => Some(f@),
        None => None,
    }
}

/// Parse the fifteen-byte figure record starting at `i`.
fn figure_from_at(b: &[u8], i: usize) -> (r: Option<InteractionFigure>)
    requires
        i + 15 <= b@.len(),
        i + 15 <= usize::MAX,
    ensures
        figure_opt_view(r) == spec_figure(b@.subrange(i as int, i + 15)),
{
    proof {
        reveal(spec_figure);
    }
    let w1 = get_u32_be(b, i + 3);
    let w2 = get_u32_be(b, i + 7);
    let w3 = get_u32_be(b, i + 11);
    let operate_type = match FigureOperateType::from_raw(mask8(w1 >> 29, 7)) {
        Some(v) => v,
        None => {
            return None;
        },
    };
    let figure_type = match FigureType::from_raw(mask8(w1 >> 26, 7)) {
        Some(v) => v,
        None => {
            return None;
        },
    };
    let color = match FigureColor::from_raw(mask8(w1 >> 18, 0xf)) {
        Some(v) => v,
        None => {
            return None;
        },
    };
    let figure_name: [u8; 3] = [b[i], b[i + 1], b[i + 2]];
    let f = InteractionFigure {
        figure_name,
        operate_type,
        figure_type,
        layer: mask8(w1 >> 22, 0xf),
        color,
        details_a: low16_32(((w1 >> 10) & 0xff) | (((w1 >> 9) & 1) << 8)),
        details_b: low16_32(((w1 >> 1) & 0xff) | ((w1 & 1) << 8)),
        width: low16_32(((w2 >> 24) & 0xff) | (((w2 >> 22) & 3) << 8)),
        start_x: low16_32(((w2 >> 14) & 0xff) | (((w2 >> 11) & 7) << 8)),
        start_y: low16_32(((w2 >> 3) & 0xff) | ((w2 & 7) << 8)),
        details_c: low16_32(((w3 >> 24) & 0xff) | (((w3 >> 22) & 3) << 8)),
        details_d: low16_32(((w3 >> 14) & 0xff) | (((w3 >> 11) & 7) << 8)),
        details_e: low16_32(((w3 >> 3) & 0xff) | ((w3 & 7) << 8)),
    };
    proof {
        assert(figure_name@ =~= b@.subrange(i as int, i + 15).subrange(0, 3));
    }
    Some(f)
}

/// The sub-payload that a decoded payload yields under the nested dispatch:
/// a robot-interaction payload whose sub-tag maps to a known row and whose
/// user bytes have exactly the mapped size yields that row's record;
/// everything else, including the raw robot-to-robot range, yields nothing.
#[verifier::opaque]
pub open spec fn spec_as_robot_interaction(c: CmdView) -> Option<UserDataView> {
    match c {
        CmdView::RobotInteractionData { data_cmd_id, user_data, .. } => {
            if data_cmd_id == 0x0100 && user_data.len() == 2 {
                match spec_layer_delete(user_data) {
                    None => None,
                    Some(d) => Some(UserDataView::LayerDelete(d)),
                }
            } else if data_cmd_id == 0x0101 && user_data.len() == 15 {
                match spec_figure(user_data) {
                    None => None,
                    Some(f) => Some(UserDataView::Figure(f)),
                }
            } else if data_cmd_id == 0x0102 && user_data.len() == 30 {
                match (spec_figure(user_data.subrange(0, 15)), spec_figure(user_data.subrange(15, 30))) {
                    (Some(f0), Some(f1)) => Some(UserDataView::Figures2(seq![f0, f1])),
                    _ => None,
                }
            } else if data_cmd_id == 0x0103 && user_data.len() == 75 {
                match (
                    spec_figure(user_data.subrange(0, 15)),
                    spec_figure(user_data.subrange(15, 30)),
                    spec_figure(user_data.subrange(30, 45)),
                    spec_figure(user_data.subrange(45, 60)),
                    spec_figure(user_data.subrange(60, 75)),
                ) {
                    (Some(f0), Some(f1), Some(f2), Some(f3), Some(f4)) =>
                        Some(UserDataView::Figures5(seq![f0, f1, f2, f3, f4])),
                    _ => None,
                }
            } else if data_cmd_id == 0x0104 && user_data.len() == 105 {
                match (
                    spec_figure(user_data.subrange(0, 15)),
                    spec_figure(user_data.subrange(15, 30)),
                    spec_figure(user_data.subrange(30, 45)),
                    spec_figure(user_data.subrange(45, 60)),
                    spec_figure(user_data.subrange(60, 75)),
                    spec_figure(user_data.subrange(75, 90)),
                    spec_figure(user_data.subrange(90, 105)),
                ) {
                    (Some(f0), Some(f1), Some(f2), Some(f3), Some(f4), Some(f5), Some(f6)) =>
                        Some(UserDataView::Figures7(seq![f0, f1, f2, f3, f4, f5, f6])),
                    _ => None,
                }
            } else if data_cmd_id == 0x0110 && user_data.len() == 45 {
                match spec_figure(user_data.subrange(0, 15)) {
                    None => None,
                    Some(f) => Some(UserDataView::CustomCharacter {
                        figure: f,
                        data: user_data.subrange(15, 45),
                    }),
                }
            } else if data_cmd_id == 0x0120 && user_data.len() == 4 {
                Some(UserDataView::SentryCmd(spec_sentry_cmd(user_data)))
            } else if data_cmd_id == 0x0121 && user_data.len() == 1 {
                Some(UserDataView::RadarCmd(RadarCmd { radar_cmd: user_data[0] }))
            } else {
                None
            }
        },
        _ => None,
    }
}

impl RefereeFrameCmdData {
    /// The decoded sub-payload carried by this payload under the nested
    /// dispatch, if its sub-tag and byte count map to a known row.
    pub fn as_robot_interaction(&self) -> (r: Option<RobotInteractionUserData>)
        ensures
            (match r {
                Some(u) => spec_as_robot_interaction(self@) == Some(u@),
                None => spec_as_robot_interaction(self@) is None,
            }),
    {
        proof {
            reveal(spec_as_robot_interaction);
        }
        match self {
            RefereeFrameCmdData::RobotInteractionData { data_cmd_id, user_data, .. } => {
                let b = user_data.as_slice();
                if *data_cmd_id == 0x0100 && b.len() == 2 {
                    match layer_delete_from_bytes(b) {
                        Some(d) => Some(RobotInteractionUserData::LayerDelete(d)),
                        None => None,
                    }
                } else if *data_cmd_id == 0x0101 && b.len() == 15 {
                    proof {
                        assert(user_data@.subrange(0, 15) =~= user_data@);
                    }
                    match figure_from_at(b, 0) {
                        Some(f) => Some(RobotInteractionUserData::Figure(f)),
                        None => None,
                    }
                } else if *data_cmd_id == 0x0102 && b.len() == 30 {
                    let f0 = match figure_from_at(b, 0) {
                        Some(f) => f,
                        None => {
                            return None;
                        },
                    };
                    let f1 = match figure_from_at(b, 15) {
                        Some(f) => f,
                        None => {
                            return None;
                        },
                    };
                    let figs = [f0, f1];
                    proof {
                        assert(figs@.map_values(|f: InteractionFigure| f@) =~= seq![f0@, f1@]);
                    }
                    Some(RobotInteractionUserData::Figures2(figs))
                } else if *data_cmd_id == 0x0103 && b.len() == 75 {
                    let f0 = match figure_from_at(b, 0) {
                        Some(f) => f,
                        None => {
                            return None;
                        },
                    };
                    let f1 = match figure_from_at(b, 15) {
                        Some(f) => f,
                        None => {
                            return None;
                        },
                    };
                    let f2 = match figure_from_at(b, 30) {
                        Some(f) => f,
                        None => {
                            return None;
                        },
                    };
                    let f3 = match figure_from_at(b, 45) {
                        Some(f) => f,
                        None => {
                            return None;
                        },
                    };
                    let f4 = match figure_from_at(b, 60) {
                        Some(f) => f,
                        None => {
                            return None;
                        },
                    };
                    let figs = [f0, f1, f2, f3, f4];
                    proof {
                        assert(figs@.map_values(|f: InteractionFigure| f@) =~= seq![f0@, f1@, f2@, f3@, f4@]);
                    }
                    Some(RobotInteractionUserData::Figures5(figs))
                } else if *data_cmd_id == 0x0104 && b.len() == 105 {
                    let f0 = match figure_from_at(b, 0) {
                        Some(f) => f,
                        None => {
                            return None;
                        },
                    };
                    let f1 = match figure_from_at(b, 15) {
                        Some(f) => f,
                        None => {
                            return None;
                        },
                    };
                    let f2 = match figure_from_at(b, 30) {
                        Some(f) => f,
                        None => {
                            return None;
                        },
                    };
                    let f3 = match figure_from_at(b, 45) {
                        Some(f) => f,
                        None => {
                            return None;
                        },
                    };
                    let f4 = match figure_from_at(b, 60) {
                        Some(f) => f,
                        None => {
                            return None;
                        },
                    };
                    let f5 = match figure_from_at(b, 75) {
                        Some(f) => f,
                        None => {
                            return None;
                        },
                    };
                    let f6 = match figure_from_at(b, 90) {
                        Some(f) => f,
                        None => {
                            return None;
                        },
                    };
                    let figs = [f0, f1, f2, f3, f4, f5, f6];
                    proof {
                        assert(figs@.map_values(|f: InteractionFigure| f@) =~= seq![f0@, f1@, f2@, f3@, f4@, f5@, f6@]);
                    }
                    Some(RobotInteractionUserData::Figures7(figs))
                } else if *data_cmd_id == 0x0110 && b.len() == 45 {
                    let figure = match figure_from_at(b, 0) {
                        Some(f) => f,
                        None => {
                            return None;
                        },
                    };
                    let data: [u8; 30] = [b[15], b[16], b[17], b[18], b[19], b[20], b[21], b[22], b[23], b[24], b[25], b[26], b[27], b[28], b[29], b[30], b[31], b[32], b[33], b[34], b[35], b[36], b[37], b[38], b[39], b[40], b[41], b[42], b[43], b[44]];
                    proof {
                        assert(data@ =~= user_data@.subrange(15, 45));
                    }
                    Some(RobotInteractionUserData::CustomCharacter { figure, data })
                } else if *data_cmd_id == 0x0120 && b.len() == 4 {
                    match sentry_cmd_from_bytes(b) {
                        Some(c) => Some(RobotInteractionUserData::SentryCmd(c)),
                        None => None,
                    }
                } else if *data_cmd_id == 0x0121 && b.len() == 1 {
                    match radar_cmd_from_bytes(b) {
                        Some(c) => Some(RobotInteractionUserData::RadarCmd(c)),
                        None => None,
                    }
                } else {
                    None
                }
            },
            _ => None,
        }
    }
}

} // verus!
