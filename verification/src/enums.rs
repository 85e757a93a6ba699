//! The closed enumerations of the protocol.
//!
//! Each set has an explicit raw wire value per member; a raw value outside
//! the set is a decode error for the field that carries it, never a silent
//! coercion. The raw maps are opaque: proofs use `lemma_raw_roundtrip`,
//! which gives the raw value's bound and that it maps back to its member.

use vstd::prelude::*;

verus! {

/// One-byte robot identifier, red side 1..11, blue side 101..111.
#[derive(Debug, Clone, Copy, PartialEq, Eq, Structural)]
pub enum RobotID {
    RedHero,
    RedEngineer,
    RedInfantry3,
    RedInfantry4,
    RedInfantry5,
    RedAerial,
    RedSentry,
    RedDart,
    RedRadar,
    RedOutpost,
    RedBase,
    BlueHero,
    BlueEngineer,
    BlueInfantry3,
    BlueInfantry4,
    BlueInfantry5,
    BlueAerial,
    BlueSentry,
    BlueDart,
    BlueRadar,
    BlueOutpost,
    BlueBase,
}

impl RobotID {
    #[verifier::opaque]
    pub open spec fn spec_raw(self) -> u8 {
        match self {
            RobotID::RedHero => 0x1,
            RobotID::RedEngineer => 0x2,
            RobotID::RedInfantry3 => 0x3,
            RobotID::RedInfantry4 => 0x4,
            RobotID::RedInfantry5 => 0x5,
            RobotID::RedAerial => 0x6,
            RobotID::RedSentry => 0x7,
            RobotID::RedDart => 0x8,
            RobotID::RedRadar => 0x9,
            RobotID::RedOutpost => 0xa,
            RobotID::RedBase => 0xb,
            RobotID::BlueHero => 0x65,
            RobotID::BlueEngineer => 0x66,
            RobotID::BlueInfantry3 => 0x67,
            RobotID::BlueInfantry4 => 0x68,
            RobotID::BlueInfantry5 => 0x69,
            RobotID::BlueAerial => 0x6a,
            RobotID::BlueSentry => 0x6b,
            RobotID::BlueDart => 0x6c,
            RobotID::BlueRadar => 0x6d,
            RobotID::BlueOutpost => 0x6e,
            RobotID::BlueBase => 0x6f,
        }
    }

    pub fn raw(self) -> (r: u8)
        ensures
            r == self.spec_raw(),
    {
        proof {
            reveal(RobotID::spec_raw);
        }
        match self {
            RobotID::RedHero => 0x1,
            RobotID::RedEngineer => 0x2,
            RobotID::RedInfantry3 => 0x3,
            RobotID::RedInfantry4 => 0x4,
            RobotID::RedInfantry5 => 0x5,
            RobotID::RedAerial => 0x6,
            RobotID::RedSentry => 0x7,
            RobotID::RedDart => 0x8,
            RobotID::RedRadar => 0x9,
            RobotID::RedOutpost => 0xa,
            RobotID::RedBase => 0xb,
            RobotID::BlueHero => 0x65,
            RobotID::BlueEngineer => 0x66,
            RobotID::BlueInfantry3 => 0x67,
            RobotID::BlueInfantry4 => 0x68,
            RobotID::BlueInfantry5 => 0x69,
            RobotID::BlueAerial => 0x6a,
            RobotID::BlueSentry => 0x6b,
            RobotID::BlueDart => 0x6c,
            RobotID::BlueRadar => 0x6d,
            RobotID::BlueOutpost => 0x6e,
            RobotID::BlueBase => 0x6f,
        }
    }

    #[verifier::opaque]
    pub open spec fn spec_from_raw(raw: u8) -> Option<RobotID> {
        if raw == 0x1 {
            Some(RobotID::RedHero)
        } else if raw == 0x2 {
            Some(RobotID::RedEngineer)
        } else if raw == 0x3 {
            Some(RobotID::RedInfantry3)
        } else if raw == 0x4 {
            Some(RobotID::RedInfantry4)
        } else if raw == 0x5 {
            Some(RobotID::RedInfantry5)
        } else if raw == 0x6 {
            Some(RobotID::RedAerial)
        } else if raw == 0x7 {
            Some(RobotID::RedSentry)
        } else if raw == 0x8 {
            Some(RobotID::RedDart)
        } else if raw == 0x9 {
            Some(RobotID::RedRadar)
        } else if raw == 0xa {
            Some(RobotID::RedOutpost)
        } else if raw == 0xb {
            Some(RobotID::RedBase)
        } else if raw == 0x65 {
            Some(RobotID::BlueHero)
        } else if raw == 0x66 {
            Some(RobotID::BlueEngineer)
        } else if raw == 0x67 {
            Some(RobotID::BlueInfantry3)
        } else if raw == 0x68 {
            Some(RobotID::BlueInfantry4)
        } else if raw == 0x69 {
            Some(RobotID::BlueInfantry5)
        } else if raw == 0x6a {
            Some(RobotID::BlueAerial)
        } else if raw == 0x6b {
            Some(RobotID::BlueSentry)
        } else if raw == 0x6c {
            Some(RobotID::BlueDart)
        } else if raw == 0x6d {
            Some(RobotID::BlueRadar)
        } else if raw == 0x6e {
            Some(RobotID::BlueOutpost)
        } else if raw == 0x6f {
            Some(RobotID::BlueBase)
        } else {
            None
        }
    }

    pub fn from_raw(raw: u8) -> (r: Option<RobotID>)
        ensures
            r == Self::spec_from_raw(raw),
    {
        proof {
            reveal(RobotID::spec_from_raw);
        }
        if raw == 0x1 {
            Some(RobotID::RedHero)
        } else if raw == 0x2 {
            Some(RobotID::RedEngineer)
        } else if raw == 0x3 {
            Some(RobotID::RedInfantry3)
        } else if raw == 0x4 {
            Some(RobotID::RedInfantry4)
        } else if raw == 0x5 {
            Some(RobotID::RedInfantry5)
        } else if raw == 0x6 {
            Some(RobotID::RedAerial)
        } else if raw == 0x7 {
            Some(RobotID::RedSentry)
        } else if raw == 0x8 {
            Some(RobotID::RedDart)
        } else if raw == 0x9 {
            Some(RobotID::RedRadar)
        } else if raw == 0xa {
            Some(RobotID::RedOutpost)
        } else if raw == 0xb {
            Some(RobotID::RedBase)
        } else if raw == 0x65 {
            Some(RobotID::BlueHero)
        } else if raw == 0x66 {
            Some(RobotID::BlueEngineer)
        } else if raw == 0x67 {
            Some(RobotID::BlueInfantry3)
        } else if raw == 0x68 {
            Some(RobotID::BlueInfantry4)
        } else if raw == 0x69 {
            Some(RobotID::BlueInfantry5)
        } else if raw == 0x6a {
            Some(RobotID::BlueAerial)
        } else if raw == 0x6b {
            Some(RobotID::BlueSentry)
        } else if raw == 0x6c {
            Some(RobotID::BlueDart)
        } else if raw == 0x6d {
            Some(RobotID::BlueRadar)
        } else if raw == 0x6e {
            Some(RobotID::BlueOutpost)
        } else if raw == 0x6f {
            Some(RobotID::BlueBase)
        } else {
            None
        }
    }

    /// Every member's raw value is in range and maps back to that member
    /// alone.
    pub proof fn lemma_raw_roundtrip(self)
        ensures
            Self::spec_from_raw(self.spec_raw()) == Some(self),
            self.spec_raw() <= 0x6f,
    {
        reveal(RobotID::spec_raw);
        reveal(RobotID::spec_from_raw);
    }
}

/// Two-byte endpoint identifier: operator clients and the referee server.
#[derive(Debug, Clone, Copy, PartialEq, Eq, Structural)]
pub enum EndpointId {
    RedHeroClient,
    RedEngineerClient,
    RedInfantry3Client,
    RedInfantry4Client,
    RedInfantry5Client,
    RedAerialClient,
    BlueHeroClient,
    BlueEngineerClient,
    BlueInfantry3Client,
    BlueInfantry4Client,
    BlueInfantry5Client,
    BlueAerialClient,
    Server,
}

impl EndpointId {
    #[verifier::opaque]
    pub open spec fn spec_raw(self) -> u16 {
        match self {
            EndpointId::RedHeroClient => 0x101,
            EndpointId::RedEngineerClient => 0x102,
            EndpointId::RedInfantry3Client => 0x103,
            EndpointId::RedInfantry4Client => 0x104,
            EndpointId::RedInfantry5Client => 0x105,
            EndpointId::RedAerialClient => 0x106,
            EndpointId::BlueHeroClient => 0x165,
            EndpointId::BlueEngineerClient => 0x166,
            EndpointId::BlueInfantry3Client => 0x167,
            EndpointId::BlueInfantry4Client => 0x168,
            EndpointId::BlueInfantry5Client => 0x169,
            EndpointId::BlueAerialClient => 0x16a,
            EndpointId::Server => 0x8080,
        }
    }

    pub fn raw(self) -> (r: u16)
        ensures
            r == self.spec_raw(),
    {
        proof {
            reveal(EndpointId::spec_raw);
        }
        match self {
            EndpointId::RedHeroClient => 0x101,
            EndpointId::RedEngineerClient => 0x102,
            EndpointId::RedInfantry3Client => 0x103,
            EndpointId::RedInfantry4Client => 0x104,
            EndpointId::RedInfantry5Client => 0x105,
            EndpointId::RedAerialClient => 0x106,
            EndpointId::BlueHeroClient => 0x165,
            EndpointId::BlueEngineerClient => 0x166,
            EndpointId::BlueInfantry3Client => 0x167,
            EndpointId::BlueInfantry4Client => 0x168,
            EndpointId::BlueInfantry5Client => 0x169,
            EndpointId::BlueAerialClient => 0x16a,
            EndpointId::Server => 0x8080,
        }
    }

    #[verifier::opaque]
    pub open spec fn spec_from_raw(raw: u16) -> Option<EndpointId> {
        if raw == 0x101 {
            Some(EndpointId::RedHeroClient)
        } else if raw == 0x102 {
            Some(EndpointId::RedEngineerClient)
        } else if raw == 0x103 {
            Some(EndpointId::RedInfantry3Client)
        } else if raw == 0x104 {
            Some(EndpointId::RedInfantry4Client)
        } else if raw == 0x105 {
            Some(EndpointId::RedInfantry5Client)
        } else if raw == 0x106 {
            Some(EndpointId::RedAerialClient)
        } else if raw == 0x165 {
            Some(EndpointId::BlueHeroClient)
        } else if raw == 0x166 {
            Some(EndpointId::BlueEngineerClient)
        } else if raw == 0x167 {
            Some(EndpointId::BlueInfantry3Client)
        } else if raw == 0x168 {
            Some(EndpointId::BlueInfantry4Client)
        } else if raw == 0x169 {
            Some(EndpointId::BlueInfantry5Client)
        } else if raw == 0x16a {
            Some(EndpointId::BlueAerialClient)
        } else if raw == 0x8080 {
            Some(EndpointId::Server)
        } else {
            None
        }
    }

    pub fn from_raw(raw: u16) -> (r: Option<EndpointId>)
        ensures
            r == Self::spec_from_raw(raw),
    {
        proof {
            reveal(EndpointId::spec_from_raw);
        }
        if raw == 0x101 {
            Some(EndpointId::RedHeroClient)
        } else if raw == 0x102 {
            Some(EndpointId::RedEngineerClient)
        } else if raw == 0x103 {
            Some(EndpointId::RedInfantry3Client)
        } else if raw == 0x104 {
            Some(EndpointId::RedInfantry4Client)
        } else if raw == 0x105 {
            Some(EndpointId::RedInfantry5Client)
        } else if raw == 0x106 {
            Some(EndpointId::RedAerialClient)
        } else if raw == 0x165 {
            Some(EndpointId::BlueHeroClient)
        } else if raw == 0x166 {
            Some(EndpointId::BlueEngineerClient)
        } else if raw == 0x167 {
            Some(EndpointId::BlueInfantry3Client)
        } else if raw == 0x168 {
            Some(EndpointId::BlueInfantry4Client)
        } else if raw == 0x169 {
            Some(EndpointId::BlueInfantry5Client)
        } else if raw == 0x16a {
            Some(EndpointId::BlueAerialClient)
        } else if raw == 0x8080 {
            Some(EndpointId::Server)
        } else {
            None
        }
    }

    /// Every member's raw value is in range and maps back to that member
    /// alone.
    pub proof fn lemma_raw_roundtrip(self)
        ensures
            Self::spec_from_raw(self.spec_raw()) == Some(self),
            self.spec_raw() <= 0x8080,
    {
        reveal(EndpointId::spec_raw);
        reveal(EndpointId::spec_from_raw);
    }
}

/// Competition kind, stored in a 4-bit field.
#[derive(Debug, Clone, Copy, PartialEq, Eq, Structural)]
pub enum GameType {
    RMUC,
    RMUT,
    RMUA,
    RMUL3v3,
    RMULInfantry,
}

impl GameType {
    #[verifier::opaque]
    pub open spec fn spec_raw(self) -> u8 {
        match self {
            GameType::RMUC => 0x1,
            GameType::RMUT => 0x2,
            GameType::RMUA => 0x3,
            GameType::RMUL3v3 => 0x4,
            GameType::RMULInfantry => 0x5,
        }
    }

    pub fn raw(self) -> (r: u8)
        ensures
            r == self.spec_raw(),
    {
        proof {
            reveal(GameType::spec_raw);
        }
        match self {
            GameType::RMUC => 0x1,
            GameType::RMUT => 0x2,
            GameType::RMUA => 0x3,
            GameType::RMUL3v3 => 0x4,
            GameType::RMULInfantry => 0x5,
        }
    }

    #[verifier::opaque]
    pub open spec fn spec_from_raw(raw: u8) -> Option<GameType> {
        if raw == 0x1 {
            Some(GameType::RMUC)
        } else if raw == 0x2 {
            Some(GameType::RMUT)
        } else if raw == 0x3 {
            Some(GameType::RMUA)
        } else if raw == 0x4 {
            Some(GameType::RMUL3v3)
        } else if raw == 0x5 {
            Some(GameType::RMULInfantry)
        } else {
            None
        }
    }

    pub fn from_raw(raw: u8) -> (r: Option<GameType>)
        ensures
            r == Self::spec_from_raw(raw),
    {
        proof {
            reveal(GameType::spec_from_raw);
        }
        if raw == 0x1 {
            Some(GameType::RMUC)
        } else if raw == 0x2 {
            Some(GameType::RMUT)
        } else if raw == 0x3 {
            Some(GameType::RMUA)
        } else if raw == 0x4 {
            Some(GameType::RMUL3v3)
        } else if raw == 0x5 {
            Some(GameType::RMULInfantry)
        } else {
            None
        }
    }

    /// Every member's raw value is in range and maps back to that member
    /// alone.
    pub proof fn lemma_raw_roundtrip(self)
        ensures
            Self::spec_from_raw(self.spec_raw()) == Some(self),
            self.spec_raw() <= 0x5,
    {
        reveal(GameType::spec_raw);
        reveal(GameType::spec_from_raw);
    }
}

/// Match phase, stored in a 4-bit field.
#[derive(Debug, Clone, Copy, PartialEq, Eq, Structural)]
pub enum GameProgress {
    NotStarted,
    Preparation,
    RefereeSelfCheck15s,
    CountDown5s,
    InProgress,
    End,
}

impl GameProgress {
    #[verifier::opaque]
    pub open spec fn spec_raw(self) -> u8 {
        match self {
            GameProgress::NotStarted => 0x0,
            GameProgress::Preparation => 0x1,
            GameProgress::RefereeSelfCheck15s => 0x2,
            GameProgress::CountDown5s => 0x3,
            GameProgress::InProgress => 0x4,
            GameProgress::End => 0x5,
        }
    }

    pub fn raw(self) -> (r: u8)
        ensures
            r == self.spec_raw(),
    {
        proof {
            reveal(GameProgress::spec_raw);
        }
        match self {
            GameProgress::NotStarted => 0x0,
            GameProgress::Preparation => 0x1,
            GameProgress::RefereeSelfCheck15s => 0x2,
            GameProgress::CountDown5s => 0x3,
            GameProgress::InProgress => 0x4,
            GameProgress::End => 0x5,
        }
    }

    #[verifier::opaque]
    pub open spec fn spec_from_raw(raw: u8) -> Option<GameProgress> {
        if raw == 0x0 {
            Some(GameProgress::NotStarted)
        } else if raw == 0x1 {
            Some(GameProgress::Preparation)
        } else if raw == 0x2 {
            Some(GameProgress::RefereeSelfCheck15s)
        } else if raw == 0x3 {
            Some(GameProgress::CountDown5s)
        } else if raw == 0x4 {
            Some(GameProgress::InProgress)
        } else if raw == 0x5 {
            Some(GameProgress::End)
        } else {
            None
        }
    }

    pub fn from_raw(raw: u8) -> (r: Option<GameProgress>)
        ensures
            r == Self::spec_from_raw(raw),
    {
        proof {
            reveal(GameProgress::spec_from_raw);
        }
        if raw == 0x0 {
            Some(GameProgress::NotStarted)
        } else if raw == 0x1 {
            Some(GameProgress::Preparation)
        } else if raw == 0x2 {
            Some(GameProgress::RefereeSelfCheck15s)
        } else if raw == 0x3 {
            Some(GameProgress::CountDown5s)
        } else if raw == 0x4 {
            Some(GameProgress::InProgress)
        } else if raw == 0x5 {
            Some(GameProgress::End)
        } else {
            None
        }
    }

    /// Every member's raw value is in range and maps back to that member
    /// alone.
    pub proof fn lemma_raw_roundtrip(self)
        ensures
            Self::spec_from_raw(self.spec_raw()) == Some(self),
            self.spec_raw() <= 0x5,
    {
        reveal(GameProgress::spec_raw);
        reveal(GameProgress::spec_from_raw);
    }
}

/// Match outcome, stored in one byte.
#[derive(Debug, Clone, Copy, PartialEq, Eq, Structural)]
pub enum GameResult {
    Draw,
    RedWin,
    BlueWin,
}

impl GameResult {
    #[verifier::opaque]
    pub open spec fn spec_raw(self) -> u8 {
        match self {
            GameResult::Draw => 0x0,
            GameResult::RedWin => 0x1,
            GameResult::BlueWin => 0x2,
        }
    }

    pub fn raw(self) -> (r: u8)
        ensures
            r == self.spec_raw(),
    {
        proof {
            reveal(GameResult::spec_raw);
        }
        match self {
            GameResult::Draw => 0x0,
            GameResult::RedWin => 0x1,
            GameResult::BlueWin => 0x2,
        }
    }

    #[verifier::opaque]
    pub open spec fn spec_from_raw(raw: u8) -> Option<GameResult> {
        if raw == 0x0 {
            Some(GameResult::Draw)
        } else if raw == 0x1 {
            Some(GameResult::RedWin)
        } else if raw == 0x2 {
            Some(GameResult::BlueWin)
        } else {
            None
        }
    }

    pub fn from_raw(raw: u8) -> (r: Option<GameResult>)
        ensures
            r == Self::spec_from_raw(raw),
    {
        proof {
            reveal(GameResult::spec_from_raw);
        }
        if raw == 0x0 {
            Some(GameResult::Draw)
        } else if raw == 0x1 {
            Some(GameResult::RedWin)
        } else if raw == 0x2 {
            Some(GameResult::BlueWin)
        } else {
            None
        }
    }

    /// Every member's raw value is in range and maps back to that member
    /// alone.
    pub proof fn lemma_raw_roundtrip(self)
        ensures
            Self::spec_from_raw(self.spec_raw()) == Some(self),
            self.spec_raw() <= 0x2,
    {
        reveal(GameResult::spec_raw);
        reveal(GameResult::spec_from_raw);
    }
}

/// Penalty level, stored in one byte.
#[derive(Debug, Clone, Copy, PartialEq, Eq, Structural)]
pub enum RefereeWarningLevel {
    BothYellow,
    Yellow,
    Red,
    Forfeit,
}

impl RefereeWarningLevel {
    #[verifier::opaque]
    pub open spec fn spec_raw(self) -> u8 {
        match self {
            RefereeWarningLevel::BothYellow => 0x1,
            RefereeWarningLevel::Yellow => 0x2,
            RefereeWarningLevel::Red => 0x3,
            RefereeWarningLevel::Forfeit => 0x4,
        }
    }

    pub fn raw(self) -> (r: u8)
        ensures
            r == self.spec_raw(),
    {
        proof {
            reveal(RefereeWarningLevel::spec_raw);
        }
        match self {
            RefereeWarningLevel::BothYellow => 0x1,
            RefereeWarningLevel::Yellow => 0x2,
            RefereeWarningLevel::Red => 0x3,
            RefereeWarningLevel::Forfeit => 0x4,
        }
    }

    #[verifier::opaque]
    pub open spec fn spec_from_raw(raw: u8) -> Option<RefereeWarningLevel> {
        if raw == 0x1 {
            Some(RefereeWarningLevel::BothYellow)
        } else if raw == 0x2 {
            Some(RefereeWarningLevel::Yellow)
        } else if raw == 0x3 {
            Some(RefereeWarningLevel::Red)
        } else if raw == 0x4 {
            Some(RefereeWarningLevel::Forfeit)
        } else {
            None
        }
    }

    pub fn from_raw(raw: u8) -> (r: Option<RefereeWarningLevel>)
        ensures
            r == Self::spec_from_raw(raw),
    {
        proof {
            reveal(RefereeWarningLevel::spec_from_raw);
        }
        if raw == 0x1 {
            Some(RefereeWarningLevel::BothYellow)
        } else if raw == 0x2 {
            Some(RefereeWarningLevel::Yellow)
        } else if raw == 0x3 {
            Some(RefereeWarningLevel::Red)
        } else if raw == 0x4 {
            Some(RefereeWarningLevel::Forfeit)
        } else {
            None
        }
    }

    /// Every member's raw value is in range and maps back to that member
    /// alone.
    pub proof fn lemma_raw_roundtrip(self)
        ensures
            Self::spec_from_raw(self.spec_raw()) == Some(self),
            self.spec_raw() <= 0x4,
    {
        reveal(RefereeWarningLevel::spec_raw);
        reveal(RefereeWarningLevel::spec_from_raw);
    }
}

/// Which side holds an area, stored in a 2-bit field.
#[derive(Debug, Clone, Copy, PartialEq, Eq, Structural)]
pub enum OccupyType {
    NoneSide,
    Our,
    Enemy,
    Both,
}

impl OccupyType {
    #[verifier::opaque]
    pub open spec fn spec_raw(self) -> u8 {
        match self {
            OccupyType::NoneSide => 0x0,
            OccupyType::Our => 0x1,
            OccupyType::Enemy => 0x2,
            OccupyType::Both => 0x3,
        }
    }

    pub fn raw(self) -> (r: u8)
        ensures
            r == self.spec_raw(),
    {
        proof {
            reveal(OccupyType::spec_raw);
        }
        match self {
            OccupyType::NoneSide => 0x0,
            OccupyType::Our => 0x1,
            OccupyType::Enemy => 0x2,
            OccupyType::Both => 0x3,
        }
    }

    #[verifier::opaque]
    pub open spec fn spec_from_raw(raw: u8) -> Option<OccupyType> {
        if raw == 0x0 {
            Some(OccupyType::NoneSide)
        } else if raw == 0x1 {
            Some(OccupyType::Our)
        } else if raw == 0x2 {
            Some(OccupyType::Enemy)
        } else if raw == 0x3 {
            Some(OccupyType::Both)
        } else {
            None
        }
    }

    pub fn from_raw(raw: u8) -> (r: Option<OccupyType>)
        ensures
            r == Self::spec_from_raw(raw),
    {
        proof {
            reveal(OccupyType::spec_from_raw);
        }
        if raw == 0x0 {
            Some(OccupyType::NoneSide)
        } else if raw == 0x1 {
            Some(OccupyType::Our)
        } else if raw == 0x2 {
            Some(OccupyType::Enemy)
        } else if raw == 0x3 {
            Some(OccupyType::Both)
        } else {
            None
        }
    }

    /// Every member's raw value is in range and maps back to that member
    /// alone.
    pub proof fn lemma_raw_roundtrip(self)
        ensures
            Self::spec_from_raw(self.spec_raw()) == Some(self),
            self.spec_raw() <= 0x3,
    {
        reveal(OccupyType::spec_raw);
        reveal(OccupyType::spec_from_raw);
    }
}

/// What a dart last hit, stored in a 3-bit field.
#[derive(Debug, Clone, Copy, PartialEq, Eq, Structural)]
pub enum DartTarget {
    NoneTarget,
    Outpost,
    BaseFixed,
    BaseRandomFixed,
    BaseRandomMoving,
}

impl DartTarget {
    #[verifier::opaque]
    pub open spec fn spec_raw(self) -> u8 {
        match self {
            DartTarget::NoneTarget => 0x0,
            DartTarget::Outpost => 0x1,
            DartTarget::BaseFixed => 0x2,
            DartTarget::BaseRandomFixed => 0x3,
            DartTarget::BaseRandomMoving => 0x4,
        }
    }

    pub fn raw(self) -> (r: u8)
        ensures
            r == self.spec_raw(),
    {
        proof {
            reveal(DartTarget::spec_raw);
        }
        match self {
            DartTarget::NoneTarget => 0x0,
            DartTarget::Outpost => 0x1,
            DartTarget::BaseFixed => 0x2,
            DartTarget::BaseRandomFixed => 0x3,
            DartTarget::BaseRandomMoving => 0x4,
        }
    }

    #[verifier::opaque]
    pub open spec fn spec_from_raw(raw: u8) -> Option<DartTarget> {
        if raw == 0x0 {
            Some(DartTarget::NoneTarget)
        } else if raw == 0x1 {
            Some(DartTarget::Outpost)
        } else if raw == 0x2 {
            Some(DartTarget::BaseFixed)
        } else if raw == 0x3 {
            Some(DartTarget::BaseRandomFixed)
        } else if raw == 0x4 {
            Some(DartTarget::BaseRandomMoving)
        } else {
            None
        }
    }

    pub fn from_raw(raw: u8) -> (r: Option<DartTarget>)
        ensures
            r == Self::spec_from_raw(raw),
    {
        proof {
            reveal(DartTarget::spec_from_raw);
        }
        if raw == 0x0 {
            Some(DartTarget::NoneTarget)
        } else if raw == 0x1 {
            Some(DartTarget::Outpost)
        } else if raw == 0x2 {
            Some(DartTarget::BaseFixed)
        } else if raw == 0x3 {
            Some(DartTarget::BaseRandomFixed)
        } else if raw == 0x4 {
            Some(DartTarget::BaseRandomMoving)
        } else {
            None
        }
    }

    /// Every member's raw value is in range and maps back to that member
    /// alone.
    pub proof fn lemma_raw_roundtrip(self)
        ensures
            Self::spec_from_raw(self.spec_raw()) == Some(self),
            self.spec_raw() <= 0x4,
    {
        reveal(DartTarget::spec_raw);
        reveal(DartTarget::spec_from_raw);
    }
}

/// The dart operator's chosen target, stored in a 2-bit field.
#[derive(Debug, Clone, Copy, PartialEq, Eq, Structural)]
pub enum DartSelectionTarget {
    NoneOrOutpost,
    BaseFixed,
    BaseRandomFixed,
    BaseRandomMoving,
}

impl DartSelectionTarget {
    #[verifier::opaque]
    pub open spec fn spec_raw(self) -> u8 {
        match self {
            DartSelectionTarget::NoneOrOutpost => 0x0,
            DartSelectionTarget::BaseFixed => 0x1,
            DartSelectionTarget::BaseRandomFixed => 0x2,
            DartSelectionTarget::BaseRandomMoving => 0x3,
        }
    }

    pub fn raw(self) -> (r: u8)
        ensures
            r == self.spec_raw(),
    {
        proof {
            reveal(DartSelectionTarget::spec_raw);
        }
        match self {
            DartSelectionTarget::NoneOrOutpost => 0x0,
            DartSelectionTarget::BaseFixed => 0x1,
            DartSelectionTarget::BaseRandomFixed => 0x2,
            DartSelectionTarget::BaseRandomMoving => 0x3,
        }
    }

    #[verifier::opaque]
    pub open spec fn spec_from_raw(raw: u8) -> Option<DartSelectionTarget> {
        if raw == 0x0 {
            Some(DartSelectionTarget::NoneOrOutpost)
        } else if raw == 0x1 {
            Some(DartSelectionTarget::BaseFixed)
        } else if raw == 0x2 {
            Some(DartSelectionTarget::BaseRandomFixed)
        } else if raw == 0x3 {
            Some(DartSelectionTarget::BaseRandomMoving)
        } else {
            None
        }
    }

    pub fn from_raw(raw: u8) -> (r: Option<DartSelectionTarget>)
        ensures
            r == Self::spec_from_raw(raw),
    {
        proof {
            reveal(DartSelectionTarget::spec_from_raw);
        }
        if raw == 0x0 {
            Some(DartSelectionTarget::NoneOrOutpost)
        } else if raw == 0x1 {
            Some(DartSelectionTarget::BaseFixed)
        } else if raw == 0x2 {
            Some(DartSelectionTarget::BaseRandomFixed)
        } else if raw == 0x3 {
            Some(DartSelectionTarget::BaseRandomMoving)
        } else {
            None
        }
    }

    /// Every member's raw value is in range and maps back to that member
    /// alone.
    pub proof fn lemma_raw_roundtrip(self)
        ensures
            Self::spec_from_raw(self.spec_raw()) == Some(self),
            self.spec_raw() <= 0x3,
    {
        reveal(DartSelectionTarget::spec_raw);
        reveal(DartSelectionTarget::spec_from_raw);
    }
}

/// Why hit points were deducted, stored in a 4-bit field.
#[derive(Debug, Clone, Copy, PartialEq, Eq, Structural)]
pub enum HpDeductionReason {
    ArmorHitByProjectile,
    ModuleOffline,
    ArmorCollision,
}

impl HpDeductionReason {
    #[verifier::opaque]
    pub open spec fn spec_raw(self) -> u8 {
        match self {
            HpDeductionReason::ArmorHitByProjectile => 0x0,
            HpDeductionReason::ModuleOffline => 0x1,
            HpDeductionReason::ArmorCollision => 0x5,
        }
    }

    pub fn raw(self) -> (r: u8)
        ensures
            r == self.spec_raw(),
    {
        proof {
            reveal(HpDeductionReason::spec_raw);
        }
        match self {
            HpDeductionReason::ArmorHitByProjectile => 0x0,
            HpDeductionReason::ModuleOffline => 0x1,
            HpDeductionReason::ArmorCollision => 0x5,
        }
    }

    #[verifier::opaque]
    pub open spec fn spec_from_raw(raw: u8) -> Option<HpDeductionReason> {
        if raw == 0x0 {
            Some(HpDeductionReason::ArmorHitByProjectile)
        } else if raw == 0x1 {
            Some(HpDeductionReason::ModuleOffline)
        } else if raw == 0x5 {
            Some(HpDeductionReason::ArmorCollision)
        } else {
            None
        }
    }

    pub fn from_raw(raw: u8) -> (r: Option<HpDeductionReason>)
        ensures
            r == Self::spec_from_raw(raw),
    {
        proof {
            reveal(HpDeductionReason::spec_from_raw);
        }
        if raw == 0x0 {
            Some(HpDeductionReason::ArmorHitByProjectile)
        } else if raw == 0x1 {
            Some(HpDeductionReason::ModuleOffline)
        } else if raw == 0x5 {
            Some(HpDeductionReason::ArmorCollision)
        } else {
            None
        }
    }

    /// Every member's raw value is in range and maps back to that member
    /// alone.
    pub proof fn lemma_raw_roundtrip(self)
        ensures
            Self::spec_from_raw(self.spec_raw()) == Some(self),
            self.spec_raw() <= 0x5,
    {
        reveal(HpDeductionReason::spec_raw);
        reveal(HpDeductionReason::spec_from_raw);
    }
}

/// Projectile calibre, stored in one byte.
#[derive(Debug, Clone, Copy, PartialEq, Eq, Structural)]
pub enum BulletType {
    Bullet17mm,
    Bullet42mm,
}

impl BulletType {
    #[verifier::opaque]
    pub open spec fn spec_raw(self) -> u8 {
        match self {
            BulletType::Bullet17mm => 0x1,
            BulletType::Bullet42mm => 0x2,
        }
    }

    pub fn raw(self) -> (r: u8)
        ensures
            r == self.spec_raw(),
    {
        proof {
            reveal(BulletType::spec_raw);
        }
        match self {
            BulletType::Bullet17mm => 0x1,
            BulletType::Bullet42mm => 0x2,
        }
    }

    #[verifier::opaque]
    pub open spec fn spec_from_raw(raw: u8) -> Option<BulletType> {
        if raw == 0x1 {
            Some(BulletType::Bullet17mm)
        } else if raw == 0x2 {
            Some(BulletType::Bullet42mm)
        } else {
            None
        }
    }

    pub fn from_raw(raw: u8) -> (r: Option<BulletType>)
        ensures
            r == Self::spec_from_raw(raw),
    {
        proof {
            reveal(BulletType::spec_from_raw);
        }
        if raw == 0x1 {
            Some(BulletType::Bullet17mm)
        } else if raw == 0x2 {
            Some(BulletType::Bullet42mm)
        } else {
            None
        }
    }

    /// Every member's raw value is in range and maps back to that member
    /// alone.
    pub proof fn lemma_raw_roundtrip(self)
        ensures
            Self::spec_from_raw(self.spec_raw()) == Some(self),
            self.spec_raw() <= 0x2,
    {
        reveal(BulletType::spec_raw);
        reveal(BulletType::spec_from_raw);
    }
}

/// Which shooter fired, stored in one byte.
#[derive(Debug, Clone, Copy, PartialEq, Eq, Structural)]
pub enum ShooterNumber {
    Shooter17mm1,
    Shooter17mm2,
    Shooter42mm,
}

impl ShooterNumber {
    #[verifier::opaque]
    pub open spec fn spec_raw(self) -> u8 {
        match self {
            ShooterNumber::Shooter17mm1 => 0x1,
            ShooterNumber::Shooter17mm2 => 0x2,
            ShooterNumber::Shooter42mm => 0x3,
        }
    }

    pub fn raw(self) -> (r: u8)
        ensures
            r == self.spec_raw(),
    {
        proof {
            reveal(ShooterNumber::spec_raw);
        }
        match self {
            ShooterNumber::Shooter17mm1 => 0x1,
            ShooterNumber::Shooter17mm2 => 0x2,
            ShooterNumber::Shooter42mm => 0x3,
        }
    }

    #[verifier::opaque]
    pub open spec fn spec_from_raw(raw: u8) -> Option<ShooterNumber> {
        if raw == 0x1 {
            Some(ShooterNumber::Shooter17mm1)
        } else if raw == 0x2 {
            Some(ShooterNumber::Shooter17mm2)
        } else if raw == 0x3 {
            Some(ShooterNumber::Shooter42mm)
        } else {
            None
        }
    }

    pub fn from_raw(raw: u8) -> (r: Option<ShooterNumber>)
        ensures
            r == Self::spec_from_raw(raw),
    {
        proof {
            reveal(ShooterNumber::spec_from_raw);
        }
        if raw == 0x1 {
            Some(ShooterNumber::Shooter17mm1)
        } else if raw == 0x2 {
            Some(ShooterNumber::Shooter17mm2)
        } else if raw == 0x3 {
            Some(ShooterNumber::Shooter42mm)
        } else {
            None
        }
    }

    /// Every member's raw value is in range and maps back to that member
    /// alone.
    pub proof fn lemma_raw_roundtrip(self)
        ensures
            Self::spec_from_raw(self.spec_raw()) == Some(self),
            self.spec_raw() <= 0x3,
    {
        reveal(ShooterNumber::spec_raw);
        reveal(ShooterNumber::spec_from_raw);
    }
}

} // verus!
