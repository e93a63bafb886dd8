//! The typed form of one datagram: a header and the body that its packet
//! type announces.
pub mod event;
pub mod motion;
pub mod participants;

use vstd::prelude::*;
use vstd::std_specs::convert::{TryFromSpec, TryFromSpecImpl};
use crate::error::{ErrorKind, ParseError};
use crate::frame::event::{EventBody, EventBodyView};
use crate::frame::motion::{CarMotion, MotionBody};
use crate::frame::participants::{Participant, ParticipantsBody};

verus! {

/// A 32-bit IEEE-754 number, held as its bit pattern.
///
/// The decoder neither rounds nor interprets the numbers of the protocol: it
/// hands on the four bytes it read, as the integer they spell in
/// little-endian order. `from_bits` of the standard library turns `bits`
/// into the number. Two values are equal when their bits are.
#[derive(Debug, Clone, Copy, PartialEq, Eq, Structural)]
pub struct Float32 {
    pub bits: u32,
}

impl Float32 {
    pub fn from_bits(bits: u32) -> (f: Float32)
        ensures
            f.bits == bits,
    {
        Float32 { bits }
    }

    pub fn to_bits(self) -> (bits: u32)
        ensures
            bits == self.bits,
    {
        self.bits
    }
}

/// The ten packet types of the protocol.
#[derive(Debug, Clone, Copy, PartialEq, Eq, Structural)]
pub enum PacketType {
    /// Physics data of all cars.
    Motion,
    /// The session in progress.
    Session,
    /// Lap times of all cars.
    LapData,
    /// Something that happened during the session.
    Event,
    /// The cars and drivers that take part.
    Participants,
    /// The setup of each car.
    CarSetups,
    /// Telemetry of each car.
    CarTelemetry,
    /// Damage, fuel and tyres of each car.
    CarStatus,
    /// The classification at the end of the race.
    FinalClassification,
    /// The players in a multiplayer lobby.
    LobbyInfo,
}

impl PacketType {
    /// The packet type that a wire code stands for.
    pub open spec fn from_ordinal(value: u8) -> Option<PacketType> {
        match value {
            0 => Some(PacketType::Motion),
            1 => Some(PacketType::Session),
            2 => Some(PacketType::LapData),
            3 => Some(PacketType::Event),
            4 => Some(PacketType::Participants),
            5 => Some(PacketType::CarSetups),
            6 => Some(PacketType::CarTelemetry),
            7 => Some(PacketType::CarStatus),
            8 => Some(PacketType::FinalClassification),
            9 => Some(PacketType::LobbyInfo),
            _ => None,
        }
    }

    /// Whether a body decoder exists for the packet type.
    pub open spec fn is_supported(self) -> bool {
        self is Motion || self is Event || self is Participants
    }
}

impl TryFromSpecImpl<u8> for PacketType {
    open spec fn obeys_try_from_spec() -> bool {
        true
    }

    open spec fn try_from_spec(value: u8) -> Result<Self, Self::Error> {
        match PacketType::from_ordinal(value) {
            Some(t) => Ok(t),
            None => Err(ParseError { kind: ErrorKind::InvalidPacketType(value), offset: 0 }),
        }
    }
}

impl TryFrom<u8> for PacketType {
    type Error = ParseError;

    /// Decodes a wire code. Any other byte is refused, with the error that
    /// carries the byte.
    fn try_from(value: u8) -> (r: Result<Self, Self::Error>)
        ensures
            r == match PacketType::from_ordinal(value) {
                Some(decoded) => Ok::<PacketType, ParseError>(decoded),
                None => Err::<PacketType, ParseError>(
                    ParseError { kind: ErrorKind::InvalidPacketType(value), offset: 0 },
                ),
            },
    {
        match value {
            0 => Ok(Self::Motion),
            1 => Ok(Self::Session),
            2 => Ok(Self::LapData),
            3 => Ok(Self::Event),
            4 => Ok(Self::Participants),
            5 => Ok(Self::CarSetups),
            6 => Ok(Self::CarTelemetry),
            7 => Ok(Self::CarStatus),
            8 => Ok(Self::FinalClassification),
            9 => Ok(Self::LobbyInfo),
            _ => Err(ParseError::new(ErrorKind::InvalidPacketType(value))),
        }
    }
}

impl PacketType {
    /// Whether a byte is a wire code.
    pub open spec fn is_wire_code(value: u8) -> bool {
        value <= 9
    }

    /// The wire code that stands for the value.
    pub open spec fn wire_code(self) -> Option<u8> {
        match self {
            PacketType::Motion => Some(0),
            PacketType::Session => Some(1),
            PacketType::LapData => Some(2),
            PacketType::Event => Some(3),
            PacketType::Participants => Some(4),
            PacketType::CarSetups => Some(5),
            PacketType::CarTelemetry => Some(6),
            PacketType::CarStatus => Some(7),
            PacketType::FinalClassification => Some(8),
            PacketType::LobbyInfo => Some(9),
        }
    }

    /// Every byte decodes: a wire code to the value that it stands for, and
    /// any other byte to the error that carries the byte.
    pub proof fn lemma_decodes_every_byte(value: u8)
        ensures
            PacketType::is_wire_code(value) <==> PacketType::from_ordinal(value) is Some,
            <PacketType as TryFromSpec<u8>>::try_from_spec(value) == match PacketType::from_ordinal(value) {
                Some(decoded) => Ok::<PacketType, ParseError>(decoded),
                None => Err::<PacketType, ParseError>(
                    ParseError { kind: ErrorKind::InvalidPacketType(value), offset: 0 },
                ),
            },
    {
    }

    /// The wire code of a value decodes to the value.
    pub proof fn lemma_wire_code_decodes(self)
        requires
            self.wire_code() is Some,
        ensures
            PacketType::from_ordinal(self.wire_code().unwrap()) == Some(self),
    {
    }

    /// A byte that decodes is the wire code of what it decodes to.
    pub proof fn lemma_decoded_has_wire_code(value: u8)
        requires
            PacketType::from_ordinal(value) is Some,
        ensures
            PacketType::from_ordinal(value).unwrap().wire_code() == Some(value),
    {
    }
}

/// The header that starts every datagram.
#[derive(Debug, Clone, Copy, PartialEq, Eq)]
pub struct Header {
    /// The protocol's year of issue.
    pub packet_format: u16,
    pub game_major_version: u8,
    pub game_minor_version: u8,
    pub packet_version: u8,
    /// The type of the body that follows.
    pub packet_id: PacketType,
    /// Identifies the session.
    pub session_uid: u64,
    /// Seconds since the session started.
    pub session_time: Float32,
    /// Counts the frames of the session.
    pub frame_identifier: u32,
    /// The slot of the player's car among the participants.
    pub player_car_index: u8,
    /// The slot of the second player's car; 255 where there is none.
    pub secondary_player_car_index: u8,
}

/// The body of a frame, by packet type.
#[derive(Debug, Clone, PartialEq, Eq)]
pub enum Data {
    Event(EventBody),
    Motion(MotionBody),
    Participants(ParticipantsBody),
}

/// A body as contracts see it.
pub enum DataView {
    Event(EventBodyView),
    Motion(Seq<CarMotion>),
    Participants(Seq<Participant>),
}

impl View for Data {
    type V = DataView;

    open spec fn view(&self) -> DataView {
        match self {
            Data::Event(body) => DataView::Event(body@),
            Data::Motion(body) => DataView::Motion(body@),
            Data::Participants(body) => DataView::Participants(body@),
        }
    }
}

/// One decoded datagram.
#[derive(Debug, Clone, PartialEq, Eq)]
pub struct Frame {
    pub header: Header,
    pub body: Data,
}

/// A frame as contracts see it.
pub struct FrameView {
    pub header: Header,
    pub body: DataView,
}

impl View for Frame {
    type V = FrameView;

    open spec fn view(&self) -> FrameView {
        FrameView { header: self.header, body: self.body@ }
    }
}

} // verus!
