//! Event frames: the event code, what the event carries, and the two
//! enumerations of a penalty.
use vstd::prelude::*;
use vstd::std_specs::convert::{TryFromSpec, TryFromSpecImpl};
use crate::error::{ErrorKind, ParseError};
use crate::frame::Float32;

verus! {

/// The body of an event frame.
#[derive(Debug, Clone, PartialEq, Eq)]
pub struct EventBody {
    /// The four ASCII characters that name the event.
    pub code: String,
    /// What the event carries.
    pub details: EventDetails,
}

/// An event body as contracts see it: the code as a sequence of characters.
pub struct EventBodyView {
    pub code: Seq<char>,
    pub details: EventDetails,
}

impl View for EventBody {
    type V = EventBodyView;

    open spec fn view(&self) -> EventBodyView {
        EventBodyView { code: self.code@, details: self.details }
    }
}

/// What an event carries, by the kind of event.
#[derive(Debug, Clone, Copy, PartialEq, Eq)]
pub enum EventDetails {
    /// The chequered flag has been waved.
    ChequeredFlag,
    /// The drag reduction system has been enabled.
    DRSEnabled,
    /// The drag reduction system has been disabled.
    DRSDisabled,
    /// A driver has set the fastest lap.
    FastestLap {
        vehicle_id: u8,
        /// The lap time in seconds.
        lap_time: Float32,
    },
    /// A driver has been given a penalty.
    Penalty {
        penalty_type: PenaltyType,
        infringement_type: InfringementType,
        vehicle_id: u8,
        other_vehicle_id: u8,
        time: u8,
        /// The lap on which the infringement happened.
        lap_number: u8,
        /// The places that the infringement gained.
        places_gained: u8,
    },
    /// The race has a winner.
    RaceWinner,
    /// A car has retired.
    Retirement { vehicle_id: u8 },
    /// The session has ended.
    SessionEnded,
    /// The session has started.
    SessionStarted,
    /// A car has passed the speed trap.
    SpeedTrap {
        vehicle_id: u8,
        /// The speed in kilometres per hour.
        speed: Float32,
    },
    /// The team mate has entered the pit lane.
    TeamMateInPits { vehicle_id: u8 },
}

/// The kind of a penalty.
///
/// The wire codes 13 and 14 both stand for
/// [`PenaltyType::ThisAndPreviousLapInvalidated`].
#[derive(Debug, Clone, Copy, PartialEq, Eq, Structural)]
pub enum PenaltyType {
    /// The driver has to pass through the pit lane without stopping.
    DriveThrough,
    /// The driver has to stop in the pits for ten seconds before the car is worked on.
    StopGo,
    /// The driver starts further back on the grid.
    GridPenalty,
    PenaltyReminder,
    TimePenalty,
    Warning,
    Disqualified,
    RemovedFromFormationLap,
    ParkedTooLongTimer,
    /// The driver did not comply with the tyre regulations.
    TyreRegulations,
    ThisLapInvalidated,
    ThisAndNextLapInvalided,
    ThisLapInvalidatedWithoutReason,
    ThisAndPreviousLapInvalidated,
    ThisAndPreviousLapInvalidatedWithoutReason,
    Retired,
    BlackFlagTimer,
}

impl PenaltyType {
    /// The value that a wire code stands for.
    pub open spec fn from_ordinal(value: u8) -> Option<PenaltyType> {
        match value {
            0 => Some(PenaltyType::DriveThrough),
            1 => Some(PenaltyType::StopGo),
            2 => Some(PenaltyType::GridPenalty),
            3 => Some(PenaltyType::PenaltyReminder),
            4 => Some(PenaltyType::TimePenalty),
            5 => Some(PenaltyType::Warning),
            6 => Some(PenaltyType::Disqualified),
            7 => Some(PenaltyType::RemovedFromFormationLap),
            8 => Some(PenaltyType::ParkedTooLongTimer),
            9 => Some(PenaltyType::TyreRegulations),
            10 => Some(PenaltyType::ThisLapInvalidated),
            11 => Some(PenaltyType::ThisAndNextLapInvalided),
            12 => Some(PenaltyType::ThisLapInvalidatedWithoutReason),
            13 => Some(PenaltyType::ThisAndPreviousLapInvalidated),
            14 => Some(PenaltyType::ThisAndPreviousLapInvalidated),
            15 => Some(PenaltyType::ThisAndPreviousLapInvalidatedWithoutReason),
            16 => Some(PenaltyType::Retired),
            17 => Some(PenaltyType::BlackFlagTimer),
            _ => None,
        }
    }
}

impl TryFromSpecImpl<u8> for PenaltyType {
    open spec fn obeys_try_from_spec() -> bool {
        true
    }

    open spec fn try_from_spec(value: u8) -> Result<Self, Self::Error> {
        match PenaltyType::from_ordinal(value) {
            Some(t) => Ok(t),
            None => Err(ParseError { kind: ErrorKind::InvalidPenaltyType(value), offset: 0 }),
        }
    }
}

impl TryFrom<u8> for PenaltyType {
    type Error = ParseError;

    /// Decodes a wire code. Any other byte is refused, with the error that
    /// carries the byte.
    fn try_from(value: u8) -> (r: Result<Self, Self::Error>)
        ensures
            r == match PenaltyType::from_ordinal(value) {
                Some(decoded) => Ok::<PenaltyType, ParseError>(decoded),
                None => Err::<PenaltyType, ParseError>(
                    ParseError { kind: ErrorKind::InvalidPenaltyType(value), offset: 0 },
                ),
            },
    {
        match value {
            0 => Ok(Self::DriveThrough),
            1 => Ok(Self::StopGo),
            2 => Ok(Self::GridPenalty),
            3 => Ok(Self::PenaltyReminder),
            4 => Ok(Self::TimePenalty),
            5 => Ok(Self::Warning),
            6 => Ok(Self::Disqualified),
            7 => Ok(Self::RemovedFromFormationLap),
            8 => Ok(Self::ParkedTooLongTimer),
            9 => Ok(Self::TyreRegulations),
            10 => Ok(Self::ThisLapInvalidated),
            11 => Ok(Self::ThisAndNextLapInvalided),
            12 => Ok(Self::ThisLapInvalidatedWithoutReason),
            13 => Ok(Self::ThisAndPreviousLapInvalidated),
            14 => Ok(Self::ThisAndPreviousLapInvalidated),
            15 => Ok(Self::ThisAndPreviousLapInvalidatedWithoutReason),
            16 => Ok(Self::Retired),
            17 => Ok(Self::BlackFlagTimer),
            _ => Err(ParseError::new(ErrorKind::InvalidPenaltyType(value))),
        }
    }
}

/// What a penalty was given for.
///
/// The wire codes 21 and 22 both stand for
/// [`InfringementType::MultipleWarnings`], and 26 and 27 both for
/// [`InfringementType::LapInvalidatedRunningWide`]. No wire code stands for
/// [`InfringementType::LapInvalidatedCornerCutting`] or
/// [`InfringementType::LapInvalidatedFlashbackUsed`].
#[derive(Debug, Clone, Copy, PartialEq, Eq, Structural)]
pub enum InfringementType {
    BlockingBySlowDriving,
    BlockingByWrongWayDriving,
    ReversingOffTheStartLine,
    BigCollision,
    SmallCollision,
    CollisionFailedToHandBackPositionSingle,
    CollisionFailedToHandBackPositionMultiple,
    CornerCuttingGainedTime,
    CornerCuttingOvertakeSingle,
    CornerCuttingOvertakeMultiple,
    CrossedPitExitLane,
    IgnoringBlueFlags,
    IgnoringYellowFlags,
    IgnoringDriveThrough,
    TooManyDriveThroughs,
    DriveThroughReminderServerWithinNLaps,
    DriveThroughReminderServeThisLap,
    PitLaneSpeeding,
    ParkedForTooLong,
    IgnoringTyreRegulations,
    TooManyPenalties,
    MultipleWarnings,
    ApproachingDisqualification,
    TyreRegulationsSelectSingle,
    TyreRegulationsSelectMultiple,
    LapInvalidatedCornerCutting,
    LapInvalidatedRunningWide,
    CornerCuttingRanWideGainedTimeMinor,
    CornerCuttingRanWideGainedTimeSignificant,
    CornerCuttingRanWideGainedTimeExtreme,
    LapInvalidatedWallRiding,
    LapInvalidatedFlashbackUsed,
    LapInvalidatedResetToTrack,
    BlockingPitLane,
    JumpStart,
    SafetyCarToCarCollision,
    SafetyCarIllegalOvertake,
    SafetyCarExceedingAllowedPace,
    VirtualSafetyCarExceedingAllowedPace,
    FormationLapBelowAllowedSpeed,
    RetiredMechanicalFailure,
    RetiredTerminallyDamaged,
    SafetyCarFallingTooFarBack,
    BlackFlagTimer,
    UnservedStopGoPenalty,
    UnservedDriveThroughPenalty,
    EngineComponentChange,
    GearboxChange,
    LeagueGridPenalty,
    RetryPenalty,
    IllegalTimeGain,
    MandatoryPitstop,
}

impl InfringementType {
    /// The value that a wire code stands for.
    pub open spec fn from_ordinal(value: u8) -> Option<InfringementType> {
        match value {
            0 => Some(InfringementType::BlockingBySlowDriving),
            1 => Some(InfringementType::BlockingByWrongWayDriving),
            2 => Some(InfringementType::ReversingOffTheStartLine),
            3 => Some(InfringementType::BigCollision),
            4 => Some(InfringementType::SmallCollision),
            5 => Some(InfringementType::CollisionFailedToHandBackPositionSingle),
            6 => Some(InfringementType::CollisionFailedToHandBackPositionMultiple),
            7 => Some(InfringementType::CornerCuttingGainedTime),
            8 => Some(InfringementType::CornerCuttingOvertakeSingle),
            9 => Some(InfringementType::CornerCuttingOvertakeMultiple),
            10 => Some(InfringementType::CrossedPitExitLane),
            11 => Some(InfringementType::IgnoringBlueFlags),
            12 => Some(InfringementType::IgnoringYellowFlags),
            13 => Some(InfringementType::IgnoringDriveThrough),
            14 => Some(InfringementType::TooManyDriveThroughs),
            15 => Some(InfringementType::DriveThroughReminderServerWithinNLaps),
            16 => Some(InfringementType::DriveThroughReminderServeThisLap),
            17 => Some(InfringementType::PitLaneSpeeding),
            18 => Some(InfringementType::ParkedForTooLong),
            19 => Some(InfringementType::IgnoringTyreRegulations),
            20 => Some(InfringementType::TooManyPenalties),
            21 => Some(InfringementType::MultipleWarnings),
            22 => Some(InfringementType::MultipleWarnings),
            23 => Some(InfringementType::ApproachingDisqualification),
            24 => Some(InfringementType::TyreRegulationsSelectSingle),
            25 => Some(InfringementType::TyreRegulationsSelectMultiple),
            26 => Some(InfringementType::LapInvalidatedRunningWide),
            27 => Some(InfringementType::LapInvalidatedRunningWide),
            28 => Some(InfringementType::CornerCuttingRanWideGainedTimeMinor),
            29 => Some(InfringementType::CornerCuttingRanWideGainedTimeSignificant),
            30 => Some(InfringementType::CornerCuttingRanWideGainedTimeExtreme),
            31 => Some(InfringementType::LapInvalidatedWallRiding),
            32 => Some(InfringementType::LapInvalidatedResetToTrack),
            33 => Some(InfringementType::BlockingPitLane),
            34 => Some(InfringementType::JumpStart),
            35 => Some(InfringementType::SafetyCarToCarCollision),
            36 => Some(InfringementType::SafetyCarIllegalOvertake),
            37 => Some(InfringementType::SafetyCarExceedingAllowedPace),
            38 => Some(InfringementType::VirtualSafetyCarExceedingAllowedPace),
            39 => Some(InfringementType::FormationLapBelowAllowedSpeed),
            40 => Some(InfringementType::RetiredMechanicalFailure),
            41 => Some(InfringementType::RetiredTerminallyDamaged),
            42 => Some(InfringementType::SafetyCarFallingTooFarBack),
            43 => Some(InfringementType::BlackFlagTimer),
            44 => Some(InfringementType::UnservedStopGoPenalty),
            45 => Some(InfringementType::UnservedDriveThroughPenalty),
            46 => Some(InfringementType::EngineComponentChange),
            47 => Some(InfringementType::GearboxChange),
            48 => Some(InfringementType::LeagueGridPenalty),
            49 => Some(InfringementType::RetryPenalty),
            50 => Some(InfringementType::IllegalTimeGain),
            51 => Some(InfringementType::MandatoryPitstop),
            _ => None,
        }
    }
}

impl TryFromSpecImpl<u8> for InfringementType {
    open spec fn obeys_try_from_spec() -> bool {
        true
    }

    open spec fn try_from_spec(value: u8) -> Result<Self, Self::Error> {
        match InfringementType::from_ordinal(value) {
            Some(t) => Ok(t),
            None => Err(ParseError { kind: ErrorKind::InvalidInfringementType(value), offset: 0 }),
        }
    }
}

impl TryFrom<u8> for InfringementType {
    type Error = ParseError;

    /// Decodes a wire code. Any other byte is refused, with the error that
    /// carries the byte.
    fn try_from(value: u8) -> (r: Result<Self, Self::Error>)
        ensures
            r == match InfringementType::from_ordinal(value) {
                Some(decoded) => Ok::<InfringementType, ParseError>(decoded),
                None => Err::<InfringementType, ParseError>(
                    ParseError { kind: ErrorKind::InvalidInfringementType(value), offset: 0 },
                ),
            },
    {
        match value {
            0 => Ok(Self::BlockingBySlowDriving),
            1 => Ok(Self::BlockingByWrongWayDriving),
            2 => Ok(Self::ReversingOffTheStartLine),
            3 => Ok(Self::BigCollision),
            4 => Ok(Self::SmallCollision),
            5 => Ok(Self::CollisionFailedToHandBackPositionSingle),
            6 => Ok(Self::CollisionFailedToHandBackPositionMultiple),
            7 => Ok(Self::CornerCuttingGainedTime),
            8 => Ok(Self::CornerCuttingOvertakeSingle),
            9 => Ok(Self::CornerCuttingOvertakeMultiple),
            10 => Ok(Self::CrossedPitExitLane),
            11 => Ok(Self::IgnoringBlueFlags),
            12 => Ok(Self::IgnoringYellowFlags),
            13 => Ok(Self::IgnoringDriveThrough),
            14 => Ok(Self::TooManyDriveThroughs),
            15 => Ok(Self::DriveThroughReminderServerWithinNLaps),
            16 => Ok(Self::DriveThroughReminderServeThisLap),
            17 => Ok(Self::PitLaneSpeeding),
            18 => Ok(Self::ParkedForTooLong),
            19 => Ok(Self::IgnoringTyreRegulations),
            20 => Ok(Self::TooManyPenalties),
            21 => Ok(Self::MultipleWarnings),
            22 => Ok(Self::MultipleWarnings),
            23 => Ok(Self::ApproachingDisqualification),
            24 => Ok(Self::TyreRegulationsSelectSingle),
            25 => Ok(Self::TyreRegulationsSelectMultiple),
            26 => Ok(Self::LapInvalidatedRunningWide),
            27 => Ok(Self::LapInvalidatedRunningWide),
            28 => Ok(Self::CornerCuttingRanWideGainedTimeMinor),
            29 => Ok(Self::CornerCuttingRanWideGainedTimeSignificant),
            30 => Ok(Self::CornerCuttingRanWideGainedTimeExtreme),
            31 => Ok(Self::LapInvalidatedWallRiding),
            32 => Ok(Self::LapInvalidatedResetToTrack),
            33 => Ok(Self::BlockingPitLane),
            34 => Ok(Self::JumpStart),
            35 => Ok(Self::SafetyCarToCarCollision),
            36 => Ok(Self::SafetyCarIllegalOvertake),
            37 => Ok(Self::SafetyCarExceedingAllowedPace),
            38 => Ok(Self::VirtualSafetyCarExceedingAllowedPace),
            39 => Ok(Self::FormationLapBelowAllowedSpeed),
            40 => Ok(Self::RetiredMechanicalFailure),
            41 => Ok(Self::RetiredTerminallyDamaged),
            42 => Ok(Self::SafetyCarFallingTooFarBack),
            43 => Ok(Self::BlackFlagTimer),
            44 => Ok(Self::UnservedStopGoPenalty),
            45 => Ok(Self::UnservedDriveThroughPenalty),
            46 => Ok(Self::EngineComponentChange),
            47 => Ok(Self::GearboxChange),
            48 => Ok(Self::LeagueGridPenalty),
            49 => Ok(Self::RetryPenalty),
            50 => Ok(Self::IllegalTimeGain),
            51 => Ok(Self::MandatoryPitstop),
            _ => Err(ParseError::new(ErrorKind::InvalidInfringementType(value))),
        }
    }
}

impl PenaltyType {
    /// Whether a byte is a wire code.
    pub open spec fn is_wire_code(value: u8) -> bool {
        value <= 17
    }

    /// The wire code that stands for the value: the lower one where two bytes
    /// stand for it.
    pub open spec fn wire_code(self) -> Option<u8> {
        match self {
            PenaltyType::DriveThrough => Some(0),
            PenaltyType::StopGo => Some(1),
            PenaltyType::GridPenalty => Some(2),
            PenaltyType::PenaltyReminder => Some(3),
            PenaltyType::TimePenalty => Some(4),
            PenaltyType::Warning => Some(5),
            PenaltyType::Disqualified => Some(6),
            PenaltyType::RemovedFromFormationLap => Some(7),
            PenaltyType::ParkedTooLongTimer => Some(8),
            PenaltyType::TyreRegulations => Some(9),
            PenaltyType::ThisLapInvalidated => Some(10),
            PenaltyType::ThisAndNextLapInvalided => Some(11),
            PenaltyType::ThisLapInvalidatedWithoutReason => Some(12),
            PenaltyType::ThisAndPreviousLapInvalidated => Some(13),
            PenaltyType::ThisAndPreviousLapInvalidatedWithoutReason => Some(15),
            PenaltyType::Retired => Some(16),
            PenaltyType::BlackFlagTimer => Some(17),
        }
    }

    /// Every byte decodes: a wire code to the value that it stands for, and
    /// any other byte to the error that carries the byte.
    pub proof fn lemma_decodes_every_byte(value: u8)
        ensures
            PenaltyType::is_wire_code(value) <==> PenaltyType::from_ordinal(value) is Some,
            <PenaltyType as TryFromSpec<u8>>::try_from_spec(value) == match PenaltyType::from_ordinal(value) {
                Some(decoded) => Ok::<PenaltyType, ParseError>(decoded),
                None => Err::<PenaltyType, ParseError>(
                    ParseError { kind: ErrorKind::InvalidPenaltyType(value), offset: 0 },
                ),
            },
    {
    }

    /// The wire code of a value decodes to the value.
    pub proof fn lemma_wire_code_decodes(self)
        requires
            self.wire_code() is Some,
        ensures
            PenaltyType::from_ordinal(self.wire_code().unwrap()) == Some(self),
    {
    }

    /// A byte that decodes is the wire code of what it decodes to, or the
    /// higher of the two bytes that decode to it.
    pub proof fn lemma_decoded_has_wire_code(value: u8)
        requires
            PenaltyType::from_ordinal(value) is Some,
        ensures
            PenaltyType::from_ordinal(value).unwrap().wire_code() == Some(
                if value == 14 {
                    (value - 1) as u8
                } else {
                    value
                },
            ),
    {
    }
}

impl InfringementType {
    /// Whether a byte is a wire code.
    pub open spec fn is_wire_code(value: u8) -> bool {
        value <= 51
    }

    /// The wire code that stands for the value: the lower one where two bytes
    /// stand for it, and none where none does.
    pub open spec fn wire_code(self) -> Option<u8> {
        match self {
            InfringementType::BlockingBySlowDriving => Some(0),
            InfringementType::BlockingByWrongWayDriving => Some(1),
            InfringementType::ReversingOffTheStartLine => Some(2),
            InfringementType::BigCollision => Some(3),
            InfringementType::SmallCollision => Some(4),
            InfringementType::CollisionFailedToHandBackPositionSingle => Some(5),
            InfringementType::CollisionFailedToHandBackPositionMultiple => Some(6),
            InfringementType::CornerCuttingGainedTime => Some(7),
            InfringementType::CornerCuttingOvertakeSingle => Some(8),
            InfringementType::CornerCuttingOvertakeMultiple => Some(9),
            InfringementType::CrossedPitExitLane => Some(10),
            InfringementType::IgnoringBlueFlags => Some(11),
            InfringementType::IgnoringYellowFlags => Some(12),
            InfringementType::IgnoringDriveThrough => Some(13),
            InfringementType::TooManyDriveThroughs => Some(14),
            InfringementType::DriveThroughReminderServerWithinNLaps => Some(15),
            InfringementType::DriveThroughReminderServeThisLap => Some(16),
            InfringementType::PitLaneSpeeding => Some(17),
            InfringementType::ParkedForTooLong => Some(18),
            InfringementType::IgnoringTyreRegulations => Some(19),
            InfringementType::TooManyPenalties => Some(20),
            InfringementType::MultipleWarnings => Some(21),
            InfringementType::ApproachingDisqualification => Some(23),
            InfringementType::TyreRegulationsSelectSingle => Some(24),
            InfringementType::TyreRegulationsSelectMultiple => Some(25),
            InfringementType::LapInvalidatedCornerCutting => None,
            InfringementType::LapInvalidatedRunningWide => Some(26),
            InfringementType::CornerCuttingRanWideGainedTimeMinor => Some(28),
            InfringementType::CornerCuttingRanWideGainedTimeSignificant => Some(29),
            InfringementType::CornerCuttingRanWideGainedTimeExtreme => Some(30),
            InfringementType::LapInvalidatedWallRiding => Some(31),
            InfringementType::LapInvalidatedFlashbackUsed => None,
            InfringementType::LapInvalidatedResetToTrack => Some(32),
            InfringementType::BlockingPitLane => Some(33),
            InfringementType::JumpStart => Some(34),
            InfringementType::SafetyCarToCarCollision => Some(35),
            InfringementType::SafetyCarIllegalOvertake => Some(36),
            InfringementType::SafetyCarExceedingAllowedPace => Some(37),
            InfringementType::VirtualSafetyCarExceedingAllowedPace => Some(38),
            InfringementType::FormationLapBelowAllowedSpeed => Some(39),
            InfringementType::RetiredMechanicalFailure => Some(40),
            InfringementType::RetiredTerminallyDamaged => Some(41),
            InfringementType::SafetyCarFallingTooFarBack => Some(42),
            InfringementType::BlackFlagTimer => Some(43),
            InfringementType::UnservedStopGoPenalty => Some(44),
            InfringementType::UnservedDriveThroughPenalty => Some(45),
            InfringementType::EngineComponentChange => Some(46),
            InfringementType::GearboxChange => Some(47),
            InfringementType::LeagueGridPenalty => Some(48),
            InfringementType::RetryPenalty => Some(49),
            InfringementType::IllegalTimeGain => Some(50),
            InfringementType::MandatoryPitstop => Some(51),
        }
    }

    /// Every byte decodes: a wire code to the value that it stands for, and
    /// any other byte to the error that carries the byte.
    pub proof fn lemma_decodes_every_byte(value: u8)
        ensures
            InfringementType::is_wire_code(value) <==> InfringementType::from_ordinal(value) is Some,
            <InfringementType as TryFromSpec<u8>>::try_from_spec(value) == match InfringementType::from_ordinal(value) {
                Some(decoded) => Ok::<InfringementType, ParseError>(decoded),
                None => Err::<InfringementType, ParseError>(
                    ParseError { kind: ErrorKind::InvalidInfringementType(value), offset: 0 },
                ),
            },
    {
    }

    /// The wire code of a value decodes to the value.
    pub proof fn lemma_wire_code_decodes(self)
        requires
            self.wire_code() is Some,
        ensures
            InfringementType::from_ordinal(self.wire_code().unwrap()) == Some(self),
    {
    }

    /// A byte that decodes is the wire code of what it decodes to, or the
    /// higher of the two bytes that decode to it.
    pub proof fn lemma_decoded_has_wire_code(value: u8)
        requires
            InfringementType::from_ordinal(value) is Some,
        ensures
            InfringementType::from_ordinal(value).unwrap().wire_code() == Some(
                if value == 22 || value == 27 {
                    (value - 1) as u8
                } else {
                    value
                },
            ),
    {
    }
}

} // verus!
