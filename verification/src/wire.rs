//! The wire format: what the bytes of a datagram mean.
//!
//! All fields are little-endian and lie one behind the other without
//! padding. For the header, for each of the three bodies and for a whole
//! datagram a spec function says what a buffer decodes to: the value, or the
//! error of the first field that is missing or invalid. The decoders of
//! [`crate::parser`] return what these functions say.
use vstd::prelude::*;
use crate::error::{ErrorKind, ParseError};
use crate::frame::{DataView, FrameView, Header, PacketType};
use crate::frame::event::{EventBodyView, EventDetails, InfringementType, PenaltyType};
use crate::frame::motion::{CarMotion, CAR_SLOTS};
use crate::frame::participants::{Driver, Participant, Team, PARTICIPANT_SLOTS};
use crate::reader::{
    float_at, le16, le32, le64, le_bytes2, le_bytes4, le_bytes8, lemma_le16, lemma_le32,
    lemma_le64,
};

verus! {

/// The length of the header that starts every datagram.
pub const HEADER_LEN: usize = 24;

/// The offset of the packet type in the header.
pub const PACKET_ID_OFFSET: usize = 5;

/// The error of a buffer that ends before the field at `offset`.
pub open spec fn short_at(offset: int) -> ParseError {
    ParseError { kind: ErrorKind::UnexpectedEnd, offset: offset as usize }
}

/// What the 24 bytes of a header mean.
///
/// The fields lie one behind the other: the format (two bytes), the two
/// parts of the game's version, the packet version and the packet type (one
/// byte each), the session (eight bytes), the session time and the frame
/// identifier (four bytes each), and the two car indices (one byte each).
/// The packet type is checked as soon as it is read, so an invalid one is
/// reported also where the buffer ends early behind it.
pub open spec fn spec_header(b: Seq<u8>) -> Result<Header, ParseError> {
    if b.len() < 2 {
        Err(short_at(0))
    } else if b.len() < 6 {
        Err(short_at(b.len() as int))
    } else if PacketType::from_ordinal(b[5]) is None {
        Err(ParseError { kind: ErrorKind::InvalidPacketType(b[5]), offset: 5 })
    } else if b.len() < 14 {
        Err(short_at(6))
    } else if b.len() < 18 {
        Err(short_at(14))
    } else if b.len() < 22 {
        Err(short_at(18))
    } else if b.len() < 24 {
        Err(short_at(b.len() as int))
    } else {
        Ok(
            Header {
                packet_format: le16(b, 0) as u16,
                game_major_version: b[2],
                game_minor_version: b[3],
                packet_version: b[4],
                packet_id: PacketType::from_ordinal(b[5]).unwrap(),
                session_uid: le64(b, 6) as u64,
                session_time: float_at(b, 14),
                frame_identifier: le32(b, 18) as u32,
                player_car_index: b[22],
                secondary_player_car_index: b[23],
            },
        )
    }
}

/// The 24 bytes that spell a header on the wire.
pub open spec fn header_bytes(h: Header) -> Seq<u8> {
    le_bytes2(h.packet_format as int) + seq![
        h.game_major_version,
        h.game_minor_version,
        h.packet_version,
        h.packet_id.wire_code().unwrap(),
    ] + le_bytes8(h.session_uid as int) + le_bytes4(h.session_time.bits as int) + le_bytes4(
        h.frame_identifier as int,
    ) + seq![h.player_car_index, h.secondary_player_car_index]
}

/// A buffer starts with six runs of 2, 4, 8, 4, 4 and 2 bytes, one behind
/// the other, exactly when each of the runs lies at its place in the buffer.
proof fn lemma_header_layout(
    b: Seq<u8>,
    format: Seq<u8>,
    versions: Seq<u8>,
    session: Seq<u8>,
    time: Seq<u8>,
    identifier: Seq<u8>,
    indices: Seq<u8>,
)
    requires
        b.len() >= 24,
        format.len() == 2,
        versions.len() == 4,
        session.len() == 8,
        time.len() == 4,
        identifier.len() == 4,
        indices.len() == 2,
    ensures
        b.take(24) == format + versions + session + time + identifier + indices <==> {
            &&& b.subrange(0, 2) == format
            &&& b.subrange(2, 6) == versions
            &&& b.subrange(6, 14) == session
            &&& b.subrange(14, 18) == time
            &&& b.subrange(18, 22) == identifier
            &&& b.subrange(22, 24) == indices
        },
{
    let start = b.take(24);
    let joined = format + versions + session + time + identifier + indices;
    assert(joined.subrange(0, 2) =~= format);
    assert(joined.subrange(2, 6) =~= versions);
    assert(joined.subrange(6, 14) =~= session);
    assert(joined.subrange(14, 18) =~= time);
    assert(joined.subrange(18, 22) =~= identifier);
    assert(joined.subrange(22, 24) =~= indices);
    assert(start.subrange(0, 2) =~= b.subrange(0, 2));
    assert(start.subrange(2, 6) =~= b.subrange(2, 6));
    assert(start.subrange(6, 14) =~= b.subrange(6, 14));
    assert(start.subrange(14, 18) =~= b.subrange(14, 18));
    assert(start.subrange(18, 22) =~= b.subrange(18, 22));
    assert(start.subrange(22, 24) =~= b.subrange(22, 24));
    if b.subrange(0, 2) == format && b.subrange(2, 6) == versions && b.subrange(6, 14) == session
        && b.subrange(14, 18) == time && b.subrange(18, 22) == identifier && b.subrange(22, 24)
        == indices {
        assert forall|i: int| 0 <= i < 24 implies start[i] == joined[i] by {
            if i < 2 {
                assert(start[i] == b.subrange(0, 2)[i]);
            } else if i < 6 {
                assert(start[i] == b.subrange(2, 6)[i - 2]);
            } else if i < 14 {
                assert(start[i] == b.subrange(6, 14)[i - 6]);
            } else if i < 18 {
                assert(start[i] == b.subrange(14, 18)[i - 14]);
            } else if i < 22 {
                assert(start[i] == b.subrange(18, 22)[i - 18]);
            } else {
                assert(start[i] == b.subrange(22, 24)[i - 22]);
            }
        }
        assert(start =~= joined);
    }
}

/// A run of bytes is a given sequence exactly when each byte is the one at
/// its place in the sequence.
proof fn lemma_run_of_four(b: Seq<u8>, at: int, b0: u8, b1: u8, b2: u8, b3: u8)
    requires
        0 <= at,
        at + 4 <= b.len(),
    ensures
        b.subrange(at, at + 4) == seq![b0, b1, b2, b3] <==> b[at] == b0 && b[at + 1] == b1 && b[at
            + 2] == b2 && b[at + 3] == b3,
{
    let run = b.subrange(at, at + 4);
    let given = seq![b0, b1, b2, b3];
    assert(run[0] == b[at] && run[1] == b[at + 1] && run[2] == b[at + 2] && run[3] == b[at + 3]);
    assert(given[0] == b0 && given[1] == b1 && given[2] == b2 && given[3] == b3);
    if b[at] == b0 && b[at + 1] == b1 && b[at + 2] == b2 && b[at + 3] == b3 {
        assert(run =~= given);
    }
}

/// The same, of a run of two bytes.
proof fn lemma_run_of_two(b: Seq<u8>, at: int, b0: u8, b1: u8)
    requires
        0 <= at,
        at + 2 <= b.len(),
    ensures
        b.subrange(at, at + 2) == seq![b0, b1] <==> b[at] == b0 && b[at + 1] == b1,
{
    let run = b.subrange(at, at + 2);
    let given = seq![b0, b1];
    assert(run[0] == b[at] && run[1] == b[at + 1]);
    assert(given[0] == b0 && given[1] == b1);
    if b[at] == b0 && b[at + 1] == b1 {
        assert(run =~= given);
    }
}

/// A buffer decodes to a header exactly when it starts with the 24 bytes
/// that spell the header: every field comes back as it was written, bit for
/// bit, and no two headers are spelt alike.
pub proof fn lemma_header_round_trip(b: Seq<u8>, h: Header)
    ensures
        spec_header(b) == Ok::<Header, ParseError>(h) <==> b.len() >= 24 && b.take(24)
            == header_bytes(h),
{
    if b.len() >= 24 {
        let code = h.packet_id.wire_code().unwrap();
        lemma_header_layout(
            b,
            le_bytes2(h.packet_format as int),
            seq![h.game_major_version, h.game_minor_version, h.packet_version, code],
            le_bytes8(h.session_uid as int),
            le_bytes4(h.session_time.bits as int),
            le_bytes4(h.frame_identifier as int),
            seq![h.player_car_index, h.secondary_player_car_index],
        );
        lemma_le16(b, 0, h.packet_format as int);
        lemma_run_of_four(
            b,
            2,
            h.game_major_version,
            h.game_minor_version,
            h.packet_version,
            code,
        );
        lemma_le64(b, 6, h.session_uid as int);
        lemma_le32(b, 14, h.session_time.bits as int);
        lemma_le32(b, 18, h.frame_identifier as int);
        lemma_run_of_two(b, 22, h.player_car_index, h.secondary_player_car_index);
        h.packet_id.lemma_wire_code_decodes();
        if PacketType::from_ordinal(b[5]) is Some {
            PacketType::lemma_decoded_has_wire_code(b[5]);
        }
    }
}

/// The bytes that spell four ASCII characters.
pub open spec fn ascii4(a: char, b: char, c: char, d: char) -> Seq<u8> {
    seq![a as u8, b as u8, c as u8, d as u8]
}

/// The text that ASCII bytes spell.
pub open spec fn text_of(bytes: Seq<u8>) -> Seq<char> {
    Seq::new(bytes.len(), |i: int| bytes[i] as char)
}

/// What an event body means: the details that it carries and the number of
/// bytes that it takes up, or the error of the first field that cannot be
/// decoded.
///
/// The body starts with a code of four ASCII characters, and the code says
/// which fields follow.
pub open spec fn spec_event_details(b: Seq<u8>) -> Result<(EventDetails, int), ParseError> {
    let code = b.take(4);
    if b.len() < 4 {
        Err(short_at(0))
    } else if code == ascii4('S', 'S', 'T', 'A') {
        Ok((EventDetails::SessionStarted, 4))
    } else if code == ascii4('S', 'E', 'N', 'D') {
        Ok((EventDetails::SessionEnded, 4))
    } else if code == ascii4('F', 'T', 'L', 'P') {
        if b.len() < 5 {
            Err(short_at(4))
        } else if b.len() < 9 {
            Err(short_at(5))
        } else {
            Ok((EventDetails::FastestLap { vehicle_id: b[4], lap_time: float_at(b, 5) }, 9))
        }
    } else if code == ascii4('R', 'T', 'M', 'T') {
        if b.len() < 5 {
            Err(short_at(4))
        } else {
            Ok((EventDetails::Retirement { vehicle_id: b[4] }, 5))
        }
    } else if code == ascii4('D', 'R', 'S', 'E') {
        Ok((EventDetails::DRSEnabled, 4))
    } else if code == ascii4('D', 'R', 'S', 'D') {
        Ok((EventDetails::DRSDisabled, 4))
    } else if code == ascii4('T', 'M', 'P', 'T') {
        if b.len() < 5 {
            Err(short_at(4))
        } else {
            Ok((EventDetails::TeamMateInPits { vehicle_id: b[4] }, 5))
        }
    } else if code == ascii4('C', 'H', 'Q', 'F') {
        Ok((EventDetails::ChequeredFlag, 4))
    } else if code == ascii4('R', 'C', 'W', 'N') {
        Ok((EventDetails::RaceWinner, 4))
    } else if code == ascii4('P', 'E', 'N', 'A') {
        spec_penalty(b)
    } else if code == ascii4('S', 'P', 'T', 'P') {
        if b.len() < 5 {
            Err(short_at(4))
        } else if b.len() < 9 {
            Err(short_at(5))
        } else {
            Ok((EventDetails::SpeedTrap { vehicle_id: b[4], speed: float_at(b, 5) }, 9))
        }
    } else {
        Err(ParseError { kind: ErrorKind::UnknownEventCode(b[0], b[1], b[2], b[3]), offset: 0 })
    }
}

/// What the body of a penalty event means: seven fields of one byte each
/// behind the code, the first two of them the wire codes of the penalty and
/// the infringement.
pub open spec fn spec_penalty(b: Seq<u8>) -> Result<(EventDetails, int), ParseError> {
    if b.len() < 5 {
        Err(short_at(4))
    } else if PenaltyType::from_ordinal(b[4]) is None {
        Err(ParseError { kind: ErrorKind::InvalidPenaltyType(b[4]), offset: 4 })
    } else if b.len() < 6 {
        Err(short_at(5))
    } else if InfringementType::from_ordinal(b[5]) is None {
        Err(ParseError { kind: ErrorKind::InvalidInfringementType(b[5]), offset: 5 })
    } else if b.len() < 11 {
        Err(short_at(b.len() as int))
    } else {
        Ok(
            (
                EventDetails::Penalty {
                    penalty_type: PenaltyType::from_ordinal(b[4]).unwrap(),
                    infringement_type: InfringementType::from_ordinal(b[5]).unwrap(),
                    vehicle_id: b[6],
                    other_vehicle_id: b[7],
                    time: b[8],
                    lap_number: b[9],
                    places_gained: b[10],
                },
                11,
            ),
        )
    }
}

/// What an event body means: its code as text and its details, and the
/// number of bytes that it takes up.
pub open spec fn spec_event_body(b: Seq<u8>) -> Result<(EventBodyView, int), ParseError> {
    match spec_event_details(b) {
        Ok((details, used)) => Ok((EventBodyView { code: text_of(b.take(4)), details }, used)),
        Err(e) => Err(e),
    }
}

/// Whether four bytes are one of the eleven event codes.
pub open spec fn is_event_code(code: Seq<u8>) -> bool {
    code == ascii4('S', 'S', 'T', 'A')
        || code == ascii4('S', 'E', 'N', 'D')
        || code == ascii4('F', 'T', 'L', 'P')
        || code == ascii4('R', 'T', 'M', 'T')
        || code == ascii4('D', 'R', 'S', 'E')
        || code == ascii4('D', 'R', 'S', 'D')
        || code == ascii4('T', 'M', 'P', 'T')
        || code == ascii4('C', 'H', 'Q', 'F')
        || code == ascii4('R', 'C', 'W', 'N')
        || code == ascii4('P', 'E', 'N', 'A')
        || code == ascii4('S', 'P', 'T', 'P')
}

/// The code that announces the details of an event.
pub open spec fn event_code(details: EventDetails) -> Seq<u8> {
    match details {
        EventDetails::SessionStarted => ascii4('S', 'S', 'T', 'A'),
        EventDetails::SessionEnded => ascii4('S', 'E', 'N', 'D'),
        EventDetails::FastestLap { .. } => ascii4('F', 'T', 'L', 'P'),
        EventDetails::Retirement { .. } => ascii4('R', 'T', 'M', 'T'),
        EventDetails::DRSEnabled => ascii4('D', 'R', 'S', 'E'),
        EventDetails::DRSDisabled => ascii4('D', 'R', 'S', 'D'),
        EventDetails::TeamMateInPits { .. } => ascii4('T', 'M', 'P', 'T'),
        EventDetails::ChequeredFlag => ascii4('C', 'H', 'Q', 'F'),
        EventDetails::RaceWinner => ascii4('R', 'C', 'W', 'N'),
        EventDetails::Penalty { .. } => ascii4('P', 'E', 'N', 'A'),
        EventDetails::SpeedTrap { .. } => ascii4('S', 'P', 'T', 'P'),
    }
}

/// The fields that follow the code of an event.
pub open spec fn event_fields(details: EventDetails) -> Seq<u8> {
    match details {
        EventDetails::FastestLap { vehicle_id, lap_time } => seq![vehicle_id] + le_bytes4(
            lap_time.bits as int,
        ),
        EventDetails::Retirement { vehicle_id } => seq![vehicle_id],
        EventDetails::TeamMateInPits { vehicle_id } => seq![vehicle_id],
        EventDetails::SpeedTrap { vehicle_id, speed } => seq![vehicle_id] + le_bytes4(
            speed.bits as int,
        ),
        EventDetails::Penalty {
            penalty_type,
            infringement_type,
            vehicle_id,
            other_vehicle_id,
            time,
            lap_number,
            places_gained,
        } => seq![
            penalty_type.wire_code().unwrap(),
            infringement_type.wire_code().unwrap(),
            vehicle_id,
            other_vehicle_id,
            time,
            lap_number,
            places_gained,
        ],
        _ => Seq::empty(),
    }
}

/// The bytes that spell an event on the wire: its code and its fields.
pub open spec fn event_bytes(details: EventDetails) -> Seq<u8> {
    event_code(details) + event_fields(details)
}

/// Whether the details can be spelt on the wire: the penalty and the
/// infringement of a penalty event must have a wire code.
pub open spec fn can_be_spelt(details: EventDetails) -> bool {
    details matches EventDetails::Penalty { penalty_type, infringement_type, .. }
        ==> penalty_type.wire_code() is Some && infringement_type.wire_code() is Some
}

/// The eleven event codes differ from each other: each spells a number of
/// its own.
proof fn lemma_event_codes_differ()
    ensures
        le32(ascii4('S', 'S', 'T', 'A'), 0) == 0x41545353,
        le32(ascii4('S', 'E', 'N', 'D'), 0) == 0x444e4553,
        le32(ascii4('F', 'T', 'L', 'P'), 0) == 0x504c5446,
        le32(ascii4('R', 'T', 'M', 'T'), 0) == 0x544d5452,
        le32(ascii4('D', 'R', 'S', 'E'), 0) == 0x45535244,
        le32(ascii4('D', 'R', 'S', 'D'), 0) == 0x44535244,
        le32(ascii4('T', 'M', 'P', 'T'), 0) == 0x54504d54,
        le32(ascii4('C', 'H', 'Q', 'F'), 0) == 0x46514843,
        le32(ascii4('R', 'C', 'W', 'N'), 0) == 0x4e574352,
        le32(ascii4('P', 'E', 'N', 'A'), 0) == 0x414e4550,
        le32(ascii4('S', 'P', 'T', 'P'), 0) == 0x50545053,
{
}

/// An event that is spelt on the wire decodes to what was spelt, whatever
/// follows it in the buffer: the variant that the code announces, with every
/// field as it was written.
pub proof fn lemma_event_round_trip(details: EventDetails, tail: Seq<u8>)
    requires
        can_be_spelt(details),
    ensures
        spec_event_details(event_bytes(details) + tail) == Ok::<(EventDetails, int), ParseError>(
            (details, event_bytes(details).len() as int),
        ),
        spec_event_body(event_bytes(details) + tail) == Ok::<(EventBodyView, int), ParseError>(
            (
                EventBodyView { code: text_of(event_code(details)), details },
                event_bytes(details).len() as int,
            ),
        ),
{
    let b = event_bytes(details) + tail;
    let fields = event_fields(details);
    lemma_event_codes_differ();
    assert(b.take(4) =~= event_code(details));
    assert(b.subrange(4, 4 + fields.len() as int) =~= fields);
    match details {
        EventDetails::FastestLap { vehicle_id, lap_time } => {
            assert(b[4] == fields[0]);
            assert(b.subrange(5, 9) =~= le_bytes4(lap_time.bits as int));
            lemma_le32(b, 5, lap_time.bits as int);
        },
        EventDetails::SpeedTrap { vehicle_id, speed } => {
            assert(b[4] == fields[0]);
            assert(b.subrange(5, 9) =~= le_bytes4(speed.bits as int));
            lemma_le32(b, 5, speed.bits as int);
        },
        EventDetails::Retirement { vehicle_id } => {
            assert(b[4] == fields[0]);
        },
        EventDetails::TeamMateInPits { vehicle_id } => {
            assert(b[4] == fields[0]);
        },
        EventDetails::Penalty { penalty_type, infringement_type, .. } => {
            penalty_type.lemma_wire_code_decodes();
            infringement_type.lemma_wire_code_decodes();
            assert(b[4] == fields[0] && b[5] == fields[1] && b[6] == fields[2] && b[7]
                == fields[3] && b[8] == fields[4] && b[9] == fields[5] && b[10] == fields[6]);
        },
        _ => {},
    }
}

/// A buffer that does not start with one of the eleven event codes does not
/// decode, and a buffer that decodes starts with one of them.
pub proof fn lemma_undefined_event_code(b: Seq<u8>)
    ensures
        b.len() >= 4 && !is_event_code(b.take(4)) ==> spec_event_details(b) == Err::<
            (EventDetails, int),
            ParseError,
        >(ParseError { kind: ErrorKind::UnknownEventCode(b[0], b[1], b[2], b[3]), offset: 0 }),
        spec_event_body(b) is Ok ==> b.len() >= 4 && is_event_code(b.take(4)),
{
}

/// The length of a car motion record on the wire.
pub const CAR_MOTION_LEN: usize = 60;

/// The length of a motion body on the wire.
pub const MOTION_BODY_LEN: usize = 1320;

/// The car motion record in the 60 bytes at `at`: six numbers of position
/// and velocity, six 16-bit directions, and six numbers of forces and
/// orientation.
pub open spec fn car_motion_at(b: Seq<u8>, at: int) -> CarMotion {
    CarMotion {
        world_position_x: float_at(b, at),
        world_position_y: float_at(b, at + 4),
        world_position_z: float_at(b, at + 8),
        world_velocity_x: float_at(b, at + 12),
        world_velocity_y: float_at(b, at + 16),
        world_velocity_z: float_at(b, at + 20),
        world_forward_direction_x: le16(b, at + 24) as u16,
        world_forward_direction_y: le16(b, at + 26) as u16,
        world_forward_direction_z: le16(b, at + 28) as u16,
        world_right_direction_x: le16(b, at + 30) as u16,
        world_right_direction_y: le16(b, at + 32) as u16,
        world_right_direction_z: le16(b, at + 34) as u16,
        g_force_lateral: float_at(b, at + 36),
        g_force_longitudinal: float_at(b, at + 40),
        g_force_vertical: float_at(b, at + 44),
        yaw: float_at(b, at + 48),
        pitch: float_at(b, at + 52),
        roll: float_at(b, at + 56),
    }
}

/// Where the first field of a car motion record starts that does not fit
/// into `len` bytes, for `len` under 60: the fields are four bytes wide but
/// for the directions, which lie at 24 to 35 and are two bytes wide.
pub open spec fn car_motion_field_start(len: int) -> int {
    if 24 <= len < 36 {
        len - len % 2
    } else {
        len - len % 4
    }
}

/// What the bytes of a car motion record mean.
pub open spec fn spec_car_motion(b: Seq<u8>) -> Result<CarMotion, ParseError> {
    if b.len() < CAR_MOTION_LEN {
        Err(short_at(car_motion_field_start(b.len() as int)))
    } else {
        Ok(car_motion_at(b, 0))
    }
}

/// What a motion body means: 22 car motion records, one behind the other.
/// Where the buffer is too short, the error names the first field of the
/// first record that does not fit.
pub open spec fn spec_motion_body(b: Seq<u8>) -> Result<Seq<CarMotion>, ParseError> {
    if b.len() < MOTION_BODY_LEN {
        let slot = b.len() as int / 60;
        Err(short_at(60 * slot + car_motion_field_start(b.len() - 60 * slot)))
    } else {
        Ok(Seq::new(CAR_SLOTS as nat, |i: int| car_motion_at(b, 60 * i)))
    }
}

/// The length of a participant record on the wire.
pub const PARTICIPANT_LEN: usize = 3;

/// The length of a participants body on the wire: the number of active
/// slots, and 22 slots.
pub const PARTICIPANTS_BODY_LEN: usize = 67;

/// What the three bytes of a participant record at `at` mean: the wire code
/// of the driver, the wire code of the team, and who controls the car.
pub open spec fn spec_participant(b: Seq<u8>, at: int) -> Result<Participant, ParseError> {
    if b.len() <= at {
        Err(short_at(at))
    } else if Driver::from_ordinal(b[at]) is None {
        Err(ParseError { kind: ErrorKind::InvalidDriver(b[at]), offset: at as usize })
    } else if b.len() <= at + 1 {
        Err(short_at(at + 1))
    } else if Team::from_ordinal(b[at + 1]) is None {
        Err(ParseError { kind: ErrorKind::InvalidTeam(b[at + 1]), offset: (at + 1) as usize })
    } else if b.len() <= at + 2 {
        Err(short_at(at + 2))
    } else {
        Ok(
            Participant {
                driver_id: Driver::from_ordinal(b[at]).unwrap(),
                team: Team::from_ordinal(b[at + 1]).unwrap(),
                ai_controlled: b[at + 2],
            },
        )
    }
}

/// What the first `count` slots of a participants body mean: the
/// participants in the order of the slots, or the error of the first record
/// that cannot be decoded.
pub open spec fn spec_participants(b: Seq<u8>, count: int) -> Result<Seq<Participant>, ParseError>
    decreases count,
{
    if count <= 0 {
        Ok(Seq::empty())
    } else {
        match spec_participants(b, count - 1) {
            Err(e) => Err(e),
            Ok(earlier) => match spec_participant(b, 1 + 3 * (count - 1)) {
                Err(e) => Err(e),
                Ok(participant) => Ok(earlier.push(participant)),
            },
        }
    }
}

/// What a participants body means.
///
/// The first byte is the number of active slots, at most 22. Behind it lie
/// 22 slots of three bytes each. The active slots come first and are
/// decoded; the others must be there, and what they hold is not looked at.
pub open spec fn spec_participants_body(b: Seq<u8>) -> Result<Seq<Participant>, ParseError> {
    if b.len() < 1 {
        Err(short_at(0))
    } else if b[0] > 22 {
        Err(ParseError { kind: ErrorKind::InvalidParticipantCount(b[0]), offset: 0 })
    } else {
        match spec_participants(b, b[0] as int) {
            Err(e) => Err(e),
            Ok(participants) => if b.len() < PARTICIPANTS_BODY_LEN {
                Err(short_at(1 + 3 * b[0]))
            } else {
                Ok(participants)
            },
        }
    }
}

/// A record that cannot be decoded fails every count of slots that reaches
/// it, with its own error.
pub proof fn lemma_first_bad_participant(b: Seq<u8>, good: int, count: int)
    requires
        0 <= good < count,
        spec_participants(b, good) is Ok,
        spec_participant(b, 1 + 3 * good) is Err,
    ensures
        spec_participants(b, count) == Err::<Seq<Participant>, ParseError>(
            spec_participant(b, 1 + 3 * good)->Err_0,
        ),
    decreases count,
{
    if count > good + 1 {
        lemma_first_bad_participant(b, good, count - 1);
    }
}

/// The participants of the first slots are those of the single slots: as
/// many as there are slots, each decoded from the three bytes of its slot.
pub proof fn lemma_participants_by_slot(b: Seq<u8>, count: int)
    requires
        0 <= count,
        spec_participants(b, count) is Ok,
    ensures
        spec_participants(b, count)->Ok_0.len() == count,
        forall|slot: int|
            0 <= slot < count ==> spec_participant(b, 1 + 3 * slot) == Ok::<
                Participant,
                ParseError,
            >(#[trigger] spec_participants(b, count)->Ok_0[slot]),
    decreases count,
{
    if count > 0 {
        lemma_participants_by_slot(b, count - 1);
    }
}

/// The errors of the first slots of a participants body are of a missing
/// field, of a driver or of a team, and lie within the body.
proof fn lemma_participants_errors(b: Seq<u8>, count: int)
    requires
        count <= PARTICIPANT_SLOTS,
    ensures
        spec_participants(b, count) matches Err(e) ==> (e.kind is UnexpectedEnd
            || e.kind is InvalidDriver || e.kind is InvalidTeam) && e.offset
            < PARTICIPANTS_BODY_LEN,
    decreases count,
{
    if count > 0 {
        lemma_participants_errors(b, count - 1);
    }
}

/// An error of a body decoder, as the frame decoder reports it: at the
/// offset in the whole datagram.
pub open spec fn in_body(e: ParseError) -> ParseError {
    ParseError { kind: e.kind, offset: (e.offset + HEADER_LEN) as usize }
}

/// What a datagram means: the frame that it holds and the number of bytes
/// that the frame takes up, or the error of the first field that cannot be
/// decoded.
///
/// The header's packet type says which body follows the header. A packet
/// type without a body decoder is an error of its own kind, at the offset of
/// the packet type.
pub open spec fn spec_frame(b: Seq<u8>) -> Result<(FrameView, int), ParseError> {
    match spec_header(b) {
        Err(e) => Err(e),
        Ok(header) => {
            let rest = b.skip(HEADER_LEN as int);
            match header.packet_id {
                PacketType::Event => match spec_event_body(rest) {
                    Ok((body, used)) => Ok(
                        (FrameView { header, body: DataView::Event(body) }, HEADER_LEN + used),
                    ),
                    Err(e) => Err(in_body(e)),
                },
                PacketType::Motion => match spec_motion_body(rest) {
                    Ok(body) => Ok(
                        (
                            FrameView { header, body: DataView::Motion(body) },
                            HEADER_LEN + MOTION_BODY_LEN,
                        ),
                    ),
                    Err(e) => Err(in_body(e)),
                },
                PacketType::Participants => match spec_participants_body(rest) {
                    Ok(body) => Ok(
                        (
                            FrameView { header, body: DataView::Participants(body) },
                            HEADER_LEN + PARTICIPANTS_BODY_LEN,
                        ),
                    ),
                    Err(e) => Err(in_body(e)),
                },
                _ => Err(
                    ParseError {
                        kind: ErrorKind::UnsupportedPacketType(b[PACKET_ID_OFFSET as int]),
                        offset: PACKET_ID_OFFSET,
                    },
                ),
            }
        },
    }
}

/// The body of a decoded frame is of the type that its header announces.
pub proof fn lemma_body_is_of_packet_type(b: Seq<u8>)
    requires
        spec_frame(b) is Ok,
    ensures
        ({
            let frame = spec_frame(b)->Ok_0.0;
            &&& frame.header == spec_header(b)->Ok_0
            &&& frame.header.packet_id is Event <==> frame.body is Event
            &&& frame.header.packet_id is Motion <==> frame.body is Motion
            &&& frame.header.packet_id is Participants <==> frame.body is Participants
        }),
{
}

/// The stage of a failure says where the datagram failed: at a field of the
/// header where the header ends early, at the validation of the tag where
/// the packet type is no wire code or has no body decoder, and at a field of
/// the body where the header has decoded and announces a body that can be
/// decoded.
pub proof fn lemma_stage_of_failure(b: Seq<u8>)
    requires
        spec_frame(b) is Err,
    ensures
        ({
            let stage = spec_frame(b)->Err_0.spec_stage();
            &&& stage is HeaderField <==> (spec_header(b) matches Err(e) && e.kind is UnexpectedEnd)
            &&& stage is TagValidation <==> (spec_header(b) matches Err(e)
                && e.kind is InvalidPacketType) || (spec_header(b) matches Ok(header)
                && !header.packet_id.is_supported())
            &&& stage is BodyField <==> (spec_header(b) matches Ok(header)
                && header.packet_id.is_supported())
        }),
{
    let rest = b.skip(HEADER_LEN as int);
    if rest.len() > 0 && rest[0] <= PARTICIPANT_SLOTS {
        lemma_participants_errors(rest, rest[0] as int);
    }
}

} // verus!
