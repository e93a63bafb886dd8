//! The frame decoder: the header, the three bodies, and the dispatch on the
//! header's packet type.
//!
//! Each decoder takes the bytes that start with what it decodes and returns
//! the decoded value together with the bytes behind it, or the error of the
//! first field that is missing or invalid. No input makes a decoder panic.
//! What the bytes mean is said in [`crate::wire`].
use vstd::prelude::*;
use vstd::string::StringExecFns;
use crate::error::{ErrorKind, ParseError};
use crate::frame::{Data, Frame, Header, PacketType};
use crate::frame::event::{EventBody, EventDetails, InfringementType, PenaltyType};
use crate::frame::motion::{CarMotion, MotionBody, CAR_SLOTS};
use crate::frame::participants::{Driver, Participant, ParticipantsBody, Team, PARTICIPANT_SLOTS};
use crate::reader::Reader;
use crate::wire::{
    ascii4, car_motion_at, car_motion_field_start, lemma_first_bad_participant, short_at,
    spec_car_motion, spec_event_body, spec_frame, spec_header, spec_motion_body,
    spec_participant, spec_participants, spec_participants_body, text_of, HEADER_LEN,
    PACKET_ID_OFFSET, PARTICIPANT_LEN,
};

verus! {

/// Reads the wire code of a packet type at the cursor.
fn packet_type(r: &mut Reader) -> (res: Result<PacketType, ParseError>)
    ensures
        final(r).source() == old(r).source(),
        !old(r).has(1) ==> res == Err::<PacketType, ParseError>(old(r).short()),
        old(r).has(1) ==> {
            let byte = old(r).source()[old(r).offset()];
            &&& final(r).offset() == old(r).offset() + 1
            &&& match PacketType::from_ordinal(byte) {
                Some(t) => res == Ok::<PacketType, ParseError>(t),
                None => res == Err::<PacketType, ParseError>(
                    ParseError {
                        kind: ErrorKind::InvalidPacketType(byte),
                        offset: old(r).offset() as usize,
                    },
                ),
            }
        },
{
    let at = r.position();
    let byte = r.u8()?;
    match PacketType::try_from(byte) {
        Ok(t) => Ok(t),
        Err(e) => Err(ParseError::at(e.kind, at)),
    }
}

/// Reads a header at the start of the cursor's buffer.
fn header_fields(r: &mut Reader) -> (res: Result<Header, ParseError>)
    requires
        old(r).offset() == 0,
    ensures
        final(r).source() == old(r).source(),
        match spec_header(old(r).source()) {
            Ok(header) => res == Ok::<Header, ParseError>(header) && final(r).offset() == 24,
            Err(e) => res == Err::<Header, ParseError>(e),
        },
{
    // Asking for the position tells that the cursor lies within the buffer,
    // which the offsets of the errors rest on.
    let _ = r.position();
    let packet_format = r.u16()?;
    let game_major_version = r.u8()?;
    let game_minor_version = r.u8()?;
    let packet_version = r.u8()?;
    let packet_id = packet_type(r)?;
    let session_uid = r.u64()?;
    let session_time = r.float32()?;
    let frame_identifier = r.u32()?;
    let player_car_index = r.u8()?;
    let secondary_player_car_index = r.u8()?;
    Ok(
        Header {
            packet_format,
            game_major_version,
            game_minor_version,
            packet_version,
            packet_id,
            session_uid,
            session_time,
            frame_identifier,
            player_car_index,
            secondary_player_car_index,
        },
    )
}

/// Decodes a header.
///
/// Succeeds exactly on the inputs of 24 bytes or more whose sixth byte is
/// the wire code of a packet type. Every field of the header is the value
/// that its bytes spell in little-endian order.
pub fn header(input: &[u8]) -> (r: Result<(&[u8], Header), ParseError>)
    ensures
        match spec_header(input@) {
            Ok(decoded) => {
                &&& r matches Ok((rest, header))
                &&& header == decoded
                &&& rest@ == input@.skip(24)
            },
            Err(e) => r matches Err(err) && err == e,
        },
        r is Ok <==> input@.len() >= 24 && PacketType::is_wire_code(input@[5]),
{
    proof {
        if input@.len() > 5 {
            PacketType::lemma_decodes_every_byte(input@[5]);
        }
    }
    let mut reader = Reader::new(input);
    let header = header_fields(&mut reader)?;
    Ok((reader.remaining(), header))
}

/// Whether the four bytes of `code` spell the given characters.
fn spells(code: &[u8], a: char, b: char, c: char, d: char) -> (r: bool)
    requires
        code@.len() == 4,
    ensures
        r == (code@ == ascii4(a, b, c, d)),
{
    let r = code[0] == a as u8 && code[1] == b as u8 && code[2] == c as u8 && code[3] == d as u8;
    proof {
        if r {
            assert(code@ =~= ascii4(a, b, c, d));
        }
    }
    r
}

/// Reads the wire code of a penalty type at the cursor.
fn penalty_type(r: &mut Reader) -> (res: Result<PenaltyType, ParseError>)
    ensures
        final(r).source() == old(r).source(),
        !old(r).has(1) ==> res == Err::<PenaltyType, ParseError>(old(r).short()),
        old(r).has(1) ==> {
            let byte = old(r).source()[old(r).offset()];
            &&& final(r).offset() == old(r).offset() + 1
            &&& match PenaltyType::from_ordinal(byte) {
                Some(t) => res == Ok::<PenaltyType, ParseError>(t),
                None => res == Err::<PenaltyType, ParseError>(
                    ParseError {
                        kind: ErrorKind::InvalidPenaltyType(byte),
                        offset: old(r).offset() as usize,
                    },
                ),
            }
        },
{
    let at = r.position();
    let byte = r.u8()?;
    match PenaltyType::try_from(byte) {
        Ok(t) => Ok(t),
        Err(e) => Err(ParseError::at(e.kind, at)),
    }
}

/// Reads the wire code of an infringement type at the cursor.
fn infringement_type(r: &mut Reader) -> (res: Result<InfringementType, ParseError>)
    ensures
        final(r).source() == old(r).source(),
        !old(r).has(1) ==> res == Err::<InfringementType, ParseError>(old(r).short()),
        old(r).has(1) ==> {
            let byte = old(r).source()[old(r).offset()];
            &&& final(r).offset() == old(r).offset() + 1
            &&& match InfringementType::from_ordinal(byte) {
                Some(t) => res == Ok::<InfringementType, ParseError>(t),
                None => res == Err::<InfringementType, ParseError>(
                    ParseError {
                        kind: ErrorKind::InvalidInfringementType(byte),
                        offset: old(r).offset() as usize,
                    },
                ),
            }
        },
{
    let at = r.position();
    let byte = r.u8()?;
    match InfringementType::try_from(byte) {
        Ok(t) => Ok(t),
        Err(e) => Err(ParseError::at(e.kind, at)),
    }
}

/// Decodes an event body.
///
/// Succeeds exactly on the inputs that start with one of the eleven event
/// codes and hold every field that the code announces, with valid wire codes
/// where the field is an enumeration. The body's `code` is the text of the
/// first four bytes.
pub fn event_body(input: &[u8]) -> (r: Result<(&[u8], EventBody), ParseError>)
    ensures
        match spec_event_body(input@) {
            Ok((view, used)) => {
                &&& r matches Ok((rest, body))
                &&& body@ == view
                &&& rest@ == input@.skip(used)
            },
            Err(e) => r matches Err(err) && err == e,
        },
        r matches Err(e) ==> e.offset <= input@.len(),
{
    let mut reader = Reader::new(input);
    let code = reader.bytes(4)?;
    assert(code@ == input@.take(4));
    let (name, details) = if spells(code, 'S', 'S', 'T', 'A') {
        ("SSTA", EventDetails::SessionStarted)
    } else if spells(code, 'S', 'E', 'N', 'D') {
        ("SEND", EventDetails::SessionEnded)
    } else if spells(code, 'F', 'T', 'L', 'P') {
        let vehicle_id = reader.u8()?;
        let lap_time = reader.float32()?;
        ("FTLP", EventDetails::FastestLap { vehicle_id, lap_time })
    } else if spells(code, 'R', 'T', 'M', 'T') {
        let vehicle_id = reader.u8()?;
        ("RTMT", EventDetails::Retirement { vehicle_id })
    } else if spells(code, 'D', 'R', 'S', 'E') {
        ("DRSE", EventDetails::DRSEnabled)
    } else if spells(code, 'D', 'R', 'S', 'D') {
        ("DRSD", EventDetails::DRSDisabled)
    } else if spells(code, 'T', 'M', 'P', 'T') {
        let vehicle_id = reader.u8()?;
        ("TMPT", EventDetails::TeamMateInPits { vehicle_id })
    } else if spells(code, 'C', 'H', 'Q', 'F') {
        ("CHQF", EventDetails::ChequeredFlag)
    } else if spells(code, 'R', 'C', 'W', 'N') {
        ("RCWN", EventDetails::RaceWinner)
    } else if spells(code, 'P', 'E', 'N', 'A') {
        let penalty_type = penalty_type(&mut reader)?;
        let infringement_type = infringement_type(&mut reader)?;
        let vehicle_id = reader.u8()?;
        let other_vehicle_id = reader.u8()?;
        let time = reader.u8()?;
        let lap_number = reader.u8()?;
        let places_gained = reader.u8()?;
        (
            "PENA",
            EventDetails::Penalty {
                penalty_type,
                infringement_type,
                vehicle_id,
                other_vehicle_id,
                time,
                lap_number,
                places_gained,
            },
        )
    } else if spells(code, 'S', 'P', 'T', 'P') {
        let vehicle_id = reader.u8()?;
        let speed = reader.float32()?;
        ("SPTP", EventDetails::SpeedTrap { vehicle_id, speed })
    } else {
        return Err(
            ParseError::at(ErrorKind::UnknownEventCode(code[0], code[1], code[2], code[3]), 0),
        );
    };
    proof {
        reveal_strlit("SSTA");
        reveal_strlit("SEND");
        reveal_strlit("FTLP");
        reveal_strlit("RTMT");
        reveal_strlit("DRSE");
        reveal_strlit("DRSD");
        reveal_strlit("TMPT");
        reveal_strlit("CHQF");
        reveal_strlit("RCWN");
        reveal_strlit("PENA");
        reveal_strlit("SPTP");
        assert(name@ =~= text_of(code@));
    }
    Ok((reader.remaining(), EventBody { code: String::from_str(name), details }))
}

/// Reads a car motion record at the cursor.
#[verifier::rlimit(40)]
fn car_motion_record(r: &mut Reader) -> (res: Result<CarMotion, ParseError>)
    ensures
        final(r).source() == old(r).source(),
        old(r).has(60) ==> {
            &&& res == Ok::<CarMotion, ParseError>(car_motion_at(old(r).source(), old(r).offset()))
            &&& final(r).offset() == old(r).offset() + 60
        },
        !old(r).has(60) ==> res == Err::<CarMotion, ParseError>(
            short_at(
                old(r).offset() + car_motion_field_start(old(r).source().len() - old(r).offset()),
            ),
        ),
{
    let _ = r.position();
    let world_position_x = r.float32()?;
    let world_position_y = r.float32()?;
    let world_position_z = r.float32()?;
    let world_velocity_x = r.float32()?;
    let world_velocity_y = r.float32()?;
    let world_velocity_z = r.float32()?;
    let world_forward_direction_x = r.u16()?;
    let world_forward_direction_y = r.u16()?;
    let world_forward_direction_z = r.u16()?;
    let world_right_direction_x = r.u16()?;
    let world_right_direction_y = r.u16()?;
    let world_right_direction_z = r.u16()?;
    let g_force_lateral = r.float32()?;
    let g_force_longitudinal = r.float32()?;
    let g_force_vertical = r.float32()?;
    let yaw = r.float32()?;
    let pitch = r.float32()?;
    let roll = r.float32()?;
    Ok(
        CarMotion {
            world_position_x,
            world_position_y,
            world_position_z,
            world_velocity_x,
            world_velocity_y,
            world_velocity_z,
            world_forward_direction_x,
            world_forward_direction_y,
            world_forward_direction_z,
            world_right_direction_x,
            world_right_direction_y,
            world_right_direction_z,
            g_force_lateral,
            g_force_longitudinal,
            g_force_vertical,
            yaw,
            pitch,
            roll,
        },
    )
}

/// Decodes one car motion record.
///
/// Succeeds exactly on the inputs of 60 bytes or more.
pub fn car_motion(input: &[u8]) -> (r: Result<(&[u8], CarMotion), ParseError>)
    ensures
        match spec_car_motion(input@) {
            Ok(record) => {
                &&& r matches Ok((rest, motion))
                &&& motion == record
                &&& rest@ == input@.skip(60)
            },
            Err(e) => r matches Err(err) && err == e,
        },
        r is Ok <==> input@.len() >= 60,
{
    let mut reader = Reader::new(input);
    let motion = car_motion_record(&mut reader)?;
    Ok((reader.remaining(), motion))
}

/// Decodes a motion body: 22 consecutive car motion records.
///
/// Succeeds exactly on the inputs of 1320 bytes or more.
pub fn motion_body(input: &[u8]) -> (r: Result<(&[u8], MotionBody), ParseError>)
    ensures
        match spec_motion_body(input@) {
            Ok(records) => {
                &&& r matches Ok((rest, body))
                &&& body@ == records
                &&& rest@ == input@.skip(1320)
            },
            Err(e) => r matches Err(err) && err == e,
        },
        r is Ok <==> input@.len() >= 1320,
        r matches Err(e) ==> e.offset <= input@.len(),
{
    let mut reader = Reader::new(input);
    let mut car_motions: [CarMotion; 22] = [CarMotion::default(); 22];
    for n in 0..CAR_SLOTS
        invariant
            reader.source() == input@,
            reader.offset() == 60 * n,
            reader.offset() <= input@.len(),
            forall|i: int| 0 <= i < n ==> car_motions@[i] == car_motion_at(input@, 60 * i),
    {
        let motion = car_motion_record(&mut reader)?;
        car_motions[n] = motion;
        let _ = reader.position();
    }
    let body = MotionBody { car_motion: car_motions };
    assert(body@ =~= Seq::new(22, |i: int| car_motion_at(input@, 60 * i)));
    Ok((reader.remaining(), body))
}

/// Reads the wire code of a driver at the cursor.
fn driver(r: &mut Reader) -> (res: Result<Driver, ParseError>)
    ensures
        final(r).source() == old(r).source(),
        !old(r).has(1) ==> res == Err::<Driver, ParseError>(old(r).short()),
        old(r).has(1) ==> {
            let byte = old(r).source()[old(r).offset()];
            &&& final(r).offset() == old(r).offset() + 1
            &&& match Driver::from_ordinal(byte) {
                Some(d) => res == Ok::<Driver, ParseError>(d),
                None => res == Err::<Driver, ParseError>(
                    ParseError {
                        kind: ErrorKind::InvalidDriver(byte),
                        offset: old(r).offset() as usize,
                    },
                ),
            }
        },
{
    let at = r.position();
    let byte = r.u8()?;
    match Driver::try_from(byte) {
        Ok(d) => Ok(d),
        Err(e) => Err(ParseError::at(e.kind, at)),
    }
}

/// Reads the wire code of a team at the cursor.
fn team(r: &mut Reader) -> (res: Result<Team, ParseError>)
    ensures
        final(r).source() == old(r).source(),
        !old(r).has(1) ==> res == Err::<Team, ParseError>(old(r).short()),
        old(r).has(1) ==> {
            let byte = old(r).source()[old(r).offset()];
            &&& final(r).offset() == old(r).offset() + 1
            &&& match Team::from_ordinal(byte) {
                Some(t) => res == Ok::<Team, ParseError>(t),
                None => res == Err::<Team, ParseError>(
                    ParseError {
                        kind: ErrorKind::InvalidTeam(byte),
                        offset: old(r).offset() as usize,
                    },
                ),
            }
        },
{
    let at = r.position();
    let byte = r.u8()?;
    match Team::try_from(byte) {
        Ok(t) => Ok(t),
        Err(e) => Err(ParseError::at(e.kind, at)),
    }
}

/// Reads a participant record at the cursor.
fn participant_record(r: &mut Reader) -> (res: Result<Participant, ParseError>)
    ensures
        final(r).source() == old(r).source(),
        res == spec_participant(old(r).source(), old(r).offset()),
        res is Ok ==> final(r).offset() == old(r).offset() + 3,
        res matches Err(e) ==> e.offset <= old(r).source().len(),
{
    let _ = r.position();
    let driver_id = driver(r)?;
    let _ = r.position();
    let team = team(r)?;
    let _ = r.position();
    let ai_controlled = r.u8()?;
    Ok(Participant { driver_id, team, ai_controlled })
}

/// Decodes a participants body.
///
/// Succeeds exactly on the inputs of 67 bytes or more that announce at most
/// 22 active slots and hold the wire code of a driver and of a team in each
/// of them. The decoded body holds the participants of the active slots.
pub fn participants_body(input: &[u8]) -> (r: Result<(&[u8], ParticipantsBody), ParseError>)
    ensures
        match spec_participants_body(input@) {
            Ok(participants) => {
                &&& r matches Ok((rest, body))
                &&& body@ == participants
                &&& body@.len() == input@[0]
                &&& body.wf()
                &&& rest@ == input@.skip(67)
            },
            Err(e) => r matches Err(err) && err == e,
        },
        r matches Err(e) ==> e.offset <= input@.len(),
{
    let mut reader = Reader::new(input);
    let count = reader.u8()?;
    if count as usize > PARTICIPANT_SLOTS {
        return Err(ParseError::at(ErrorKind::InvalidParticipantCount(count), 0));
    }
    let mut participants: Vec<Participant> = Vec::new();
    let mut slot: usize = 0;
    while slot < count as usize
        invariant
            reader.source() == input@,
            reader.offset() == 1 + 3 * slot,
            reader.offset() <= input@.len(),
            input@.len() >= 1,
            count == input@[0],
            slot <= count <= PARTICIPANT_SLOTS,
            participants@.len() == slot,
            spec_participants(input@, slot as int) == Ok::<Seq<Participant>, ParseError>(
                participants@,
            ),
        decreases count - slot,
    {
        let participant = match participant_record(&mut reader) {
            Ok(participant) => participant,
            Err(e) => {
                proof {
                    lemma_first_bad_participant(input@, slot as int, count as int);
                }
                return Err(e);
            },
        };
        participants.push(participant);
        slot += 1;
        let _ = reader.position();
    }
    let _ = reader.bytes(PARTICIPANT_LEN * (PARTICIPANT_SLOTS - count as usize))?;
    Ok((reader.remaining(), ParticipantsBody { participants }))
}

/// Decodes a datagram into a frame.
///
/// Succeeds exactly on the inputs that hold a header whose packet type is
/// event, motion or participants, and behind it a body of that type. Every
/// other input is an error, and none makes the decoder panic.
pub fn frame(input: &[u8]) -> (r: Result<(&[u8], Frame), ParseError>)
    ensures
        match spec_frame(input@) {
            Ok((view, used)) => {
                &&& r matches Ok((rest, frame))
                &&& frame@ == view
                &&& rest@ == input@.skip(used)
            },
            Err(e) => r matches Err(err) && err == e,
        },
{
    let total = input.len();
    let (rest, header) = header(input)?;
    let decoded = match header.packet_id {
        PacketType::Event => match event_body(rest) {
            Ok((rest, body)) => Ok((rest, Data::Event(body))),
            Err(e) => Err(e),
        },
        PacketType::Motion => match motion_body(rest) {
            Ok((rest, body)) => Ok((rest, Data::Motion(body))),
            Err(e) => Err(e),
        },
        PacketType::Participants => match participants_body(rest) {
            Ok((rest, body)) => Ok((rest, Data::Participants(body))),
            Err(e) => Err(e),
        },
        _ => {
            return Err(
                ParseError::at(
                    ErrorKind::UnsupportedPacketType(input[PACKET_ID_OFFSET]),
                    PACKET_ID_OFFSET,
                ),
            );
        },
    };
    match decoded {
        Ok((rest, body)) => Ok((rest, Frame { header, body })),
        Err(e) => {
            assert(e.offset + HEADER_LEN <= total);
            Err(ParseError::at(e.kind, e.offset + HEADER_LEN))
        },
    }
}

} // verus!
