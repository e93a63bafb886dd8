use lole::error::{ErrorKind, ParseError, Stage};
use lole::frame::event::{EventBody, EventDetails, InfringementType, PenaltyType};
use lole::frame::motion::CarMotion;
use lole::frame::participants::{Driver, Participant, Team};
use lole::frame::{Data, Float32, Header, PacketType};
use lole::parser::{car_motion, event_body, frame, header, motion_body, participants_body};

fn float(value: f32) -> Float32 {
    Float32::from_bits(value.to_bits())
}

fn sample_header(packet_id: u8) -> Vec<u8> {
    let mut bytes = vec![0xe4, 0x07, 1, 18, 1, packet_id];
    bytes.extend_from_slice(&10456883590002387209u64.to_le_bytes());
    bytes.extend_from_slice(&12.5f32.to_le_bytes());
    bytes.extend_from_slice(&77u32.to_le_bytes());
    bytes.extend_from_slice(&[19, 255]);
    bytes
}

fn car_record(slot: u16) -> Vec<u8> {
    let base = slot as f32 * 100.0;
    let mut bytes = Vec::new();
    for k in 0..6u16 {
        bytes.extend_from_slice(&(base + k as f32).to_le_bytes());
    }
    for k in 0..6u16 {
        bytes.extend_from_slice(&(slot * 10 + k).to_le_bytes());
    }
    for k in 6..12u16 {
        bytes.extend_from_slice(&(base + k as f32).to_le_bytes());
    }
    bytes
}

fn expected_car(slot: u16) -> CarMotion {
    let base = slot as f32 * 100.0;
    CarMotion {
        world_position_x: float(base),
        world_position_y: float(base + 1.0),
        world_position_z: float(base + 2.0),
        world_velocity_x: float(base + 3.0),
        world_velocity_y: float(base + 4.0),
        world_velocity_z: float(base + 5.0),
        world_forward_direction_x: slot * 10,
        world_forward_direction_y: slot * 10 + 1,
        world_forward_direction_z: slot * 10 + 2,
        world_right_direction_x: slot * 10 + 3,
        world_right_direction_y: slot * 10 + 4,
        world_right_direction_z: slot * 10 + 5,
        g_force_lateral: float(base + 6.0),
        g_force_longitudinal: float(base + 7.0),
        g_force_vertical: float(base + 8.0),
        yaw: float(base + 9.0),
        pitch: float(base + 10.0),
        roll: float(base + 11.0),
    }
}

fn motion_bytes() -> Vec<u8> {
    let mut bytes = Vec::new();
    for slot in 0..22u16 {
        bytes.extend_from_slice(&car_record(slot));
    }
    bytes
}

fn participants_bytes(active: &[(u8, u8, u8)]) -> Vec<u8> {
    let mut bytes = vec![active.len() as u8];
    for (driver, team, ai) in active {
        bytes.extend_from_slice(&[*driver, *team, *ai]);
    }
    while bytes.len() < 67 {
        bytes.push(0xee);
    }
    bytes
}

fn short(offset: usize) -> ParseError {
    ParseError { kind: ErrorKind::UnexpectedEnd, offset }
}

#[test]
fn parser_test_parse_header() {
    let data: &[u8]= b"\xe4\x07\x01\x12\x01\x03\t)\xb4\xdf8P\x1e\x91\x00\x00\x00\x00\x00\x00\x00\x00\x13\xffSSTA\xc8X\xf5/\x00\x00\x00";
    let (_input, _header) = header(data).unwrap();
    assert_eq!(
        _header,
        Header {
            packet_format: 2020,
            game_major_version: 1,
            game_minor_version: 18,
            packet_version: 1,
            packet_id: PacketType::Event,
            session_uid: 10456883590002387209,
            session_time: float(0.0),
            frame_identifier: 0,
            player_car_index: 19,
            secondary_player_car_index: 255,
        }
    );
}

#[test]
fn parser_test_parse_event() {
    let data: &[u8] = &[
        228, 7, 1, 19, 1, 3, 207, 82, 48, 29, 211, 221, 97, 126, 56, 88, 29, 66, 196, 1, 0, 0,
        19, 255, 80, 69, 78, 65, 16, 41, 19, 255, 255, 1, 255,
    ];
    let (_input, _header) = header(data).unwrap();
    let (_input, body) = event_body(_input).unwrap();
    assert_eq!(
        body,
        EventBody {
            code: "PENA".to_string(),
            details: EventDetails::Penalty {
                penalty_type: PenaltyType::Retired,
                infringement_type: InfringementType::RetiredTerminallyDamaged,
                vehicle_id: 19,
                other_vehicle_id: 255,
                time: 255,
                lap_number: 1,
                places_gained: 255,
            }
        }
    )
}

#[test]
fn lib_test_parse_header() {
    let data: &[u8]= b"\xe4\x07\x01\x12\x01\x03\t)\xb4\xdf8P\x1e\x91\x00\x00\x00\x00\x00\x00\x00\x00\x13\xffSSTA\xc8X\xf5/\x00\x00\x00";
    let (_input, _header) = lole::header(data).unwrap();
    assert_eq!(
        _header,
        lole::Header {
            packet_format: 2020,
            game_major_version: 1,
            game_minor_version: 18,
            packet_version: 1,
            packet_id: lole::PacketType::Event,
            session_uid: 10456883590002387209,
            session_time: float(0.0),
            frame_identifier: 0,
            player_car_index: 19,
            secondary_player_car_index: 255,
        }
    );
}

#[test]
fn lib_test_parse_event() {
    let data: &[u8] = &[
        228, 7, 1, 19, 1, 3, 207, 82, 48, 29, 211, 221, 97, 126, 56, 88, 29, 66, 196, 1, 0, 0, 19,
        255, 80, 69, 78, 65, 16, 41, 19, 255, 255, 1, 255,
    ];
    let (_input, _header) = lole::header(data).unwrap();
    let (_input, body) = lole::event_body(_input).unwrap();
    assert_eq!(
        body,
        lole::EventBody {
            code: "PENA".to_string(),
            details: lole::EventDetails::Penalty {
                penalty_type: lole::PenaltyType::Retired,
                infringement_type: lole::InfringementType::RetiredTerminallyDamaged,
                vehicle_id: 19,
                other_vehicle_id: 255,
                time: 255,
                lap_number: 1,
                places_gained: 255,
            }
        }
    )
}

#[test]
fn header_returns_the_bytes_behind_it() {
    let data: &[u8]= b"\xe4\x07\x01\x12\x01\x03\t)\xb4\xdf8P\x1e\x91\x00\x00\x00\x00\x00\x00\x00\x00\x13\xffSSTA\xc8X\xf5/\x00\x00\x00";
    let (rest, _) = header(data).unwrap();
    assert_eq!(rest, b"SSTA\xc8X\xf5/\x00\x00\x00");
}

#[test]
fn header_keeps_every_field() {
    let bytes = sample_header(4);
    let (rest, decoded) = header(&bytes).unwrap();
    assert!(rest.is_empty());
    assert_eq!(decoded.packet_format, 2020);
    assert_eq!(decoded.game_major_version, 1);
    assert_eq!(decoded.game_minor_version, 18);
    assert_eq!(decoded.packet_version, 1);
    assert_eq!(decoded.packet_id, PacketType::Participants);
    assert_eq!(decoded.session_uid, 10456883590002387209);
    assert_eq!(f32::from_bits(decoded.session_time.bits), 12.5);
    assert_eq!(decoded.session_time.to_bits(), 0x4148_0000);
    assert_eq!(decoded.frame_identifier, 77);
    assert_eq!(decoded.player_car_index, 19);
    assert_eq!(decoded.secondary_player_car_index, 255);
}

#[test]
fn header_keeps_the_bits_of_a_number_that_is_none() {
    let mut bytes = sample_header(0);
    bytes[14..18].copy_from_slice(&[0x01, 0x00, 0xc0, 0x7f]);
    let (_, decoded) = header(&bytes).unwrap();
    assert_eq!(decoded.session_time.bits, 0x7fc0_0001);
    assert!(f32::from_bits(decoded.session_time.bits).is_nan());
}

#[test]
fn header_of_extreme_values() {
    let bytes = [0xffu8; 5]
        .iter()
        .copied()
        .chain([9u8])
        .chain([0xffu8; 18])
        .collect::<Vec<u8>>();
    let (_, decoded) = header(&bytes).unwrap();
    assert_eq!(decoded.packet_format, u16::MAX);
    assert_eq!(decoded.packet_id, PacketType::LobbyInfo);
    assert_eq!(decoded.session_uid, u64::MAX);
    assert_eq!(decoded.session_time.bits, u32::MAX);
    assert_eq!(decoded.frame_identifier, u32::MAX);
}

#[test]
fn header_that_ends_early_names_the_missing_field() {
    let bytes = sample_header(3);
    let starts = [0usize, 0, 2, 3, 4, 5, 6, 6, 6, 6, 6, 6, 6, 6, 14, 14, 14, 14, 18, 18, 18, 18, 22, 23];
    for len in 0..24 {
        assert_eq!(header(&bytes[..len]), Err(short(starts[len])), "length {}", len);
    }
    assert!(header(&bytes[..24]).is_ok());
}

#[test]
fn header_with_an_invalid_packet_type() {
    let bytes = sample_header(10);
    assert_eq!(
        header(&bytes),
        Err(ParseError { kind: ErrorKind::InvalidPacketType(10), offset: 5 })
    );
    assert_eq!(
        header(&bytes[..6]),
        Err(ParseError { kind: ErrorKind::InvalidPacketType(10), offset: 5 })
    );
}

#[test]
fn event_codes_without_fields() {
    let cases = [
        ("SSTA", EventDetails::SessionStarted),
        ("SEND", EventDetails::SessionEnded),
        ("DRSE", EventDetails::DRSEnabled),
        ("DRSD", EventDetails::DRSDisabled),
        ("CHQF", EventDetails::ChequeredFlag),
        ("RCWN", EventDetails::RaceWinner),
    ];
    for (code, details) in cases {
        let mut bytes = code.as_bytes().to_vec();
        bytes.extend_from_slice(&[1, 2, 3]);
        let (rest, body) = event_body(&bytes).unwrap();
        assert_eq!(body, EventBody { code: code.to_string(), details });
        assert_eq!(rest, &[1, 2, 3]);
    }
}

#[test]
fn event_fastest_lap() {
    let mut bytes = b"FTLP".to_vec();
    bytes.push(7);
    bytes.extend_from_slice(&83.25f32.to_le_bytes());
    bytes.push(0xaa);
    let (rest, body) = event_body(&bytes).unwrap();
    assert_eq!(
        body,
        EventBody {
            code: "FTLP".to_string(),
            details: EventDetails::FastestLap { vehicle_id: 7, lap_time: float(83.25) },
        }
    );
    assert_eq!(rest, &[0xaa]);
}

#[test]
fn event_speed_trap() {
    let mut bytes = b"SPTP".to_vec();
    bytes.push(3);
    bytes.extend_from_slice(&312.5f32.to_le_bytes());
    let (rest, body) = event_body(&bytes).unwrap();
    assert_eq!(
        body,
        EventBody {
            code: "SPTP".to_string(),
            details: EventDetails::SpeedTrap { vehicle_id: 3, speed: float(312.5) },
        }
    );
    assert!(rest.is_empty());
}

#[test]
fn event_retirement_and_team_mate_in_pits() {
    let (rest, body) = event_body(b"RTMT\x0b\x01").unwrap();
    assert_eq!(
        body,
        EventBody { code: "RTMT".to_string(), details: EventDetails::Retirement { vehicle_id: 11 } }
    );
    assert_eq!(rest, &[1]);
    let (rest, body) = event_body(b"TMPT\x0c").unwrap();
    assert_eq!(
        body,
        EventBody {
            code: "TMPT".to_string(),
            details: EventDetails::TeamMateInPits { vehicle_id: 12 },
        }
    );
    assert!(rest.is_empty());
}

#[test]
fn event_penalty_keeps_its_fields() {
    let (rest, body) = event_body(b"PENA\x0e\x1b\x01\x02\x03\x04\x05\x06").unwrap();
    assert_eq!(
        body.details,
        EventDetails::Penalty {
            penalty_type: PenaltyType::ThisAndPreviousLapInvalidated,
            infringement_type: InfringementType::LapInvalidatedRunningWide,
            vehicle_id: 1,
            other_vehicle_id: 2,
            time: 3,
            lap_number: 4,
            places_gained: 5,
        }
    );
    assert_eq!(body.code, "PENA");
    assert_eq!(rest, &[6]);
}

#[test]
fn event_with_an_undefined_code() {
    assert_eq!(
        event_body(b"ABCD\x01\x02"),
        Err(ParseError { kind: ErrorKind::UnknownEventCode(b'A', b'B', b'C', b'D'), offset: 0 })
    );
    assert_eq!(
        event_body(b"ssta"),
        Err(ParseError { kind: ErrorKind::UnknownEventCode(b's', b's', b't', b'a'), offset: 0 })
    );
    assert_eq!(
        event_body(&[0xff, 0xfe, 0x00, 0x80, 1]),
        Err(ParseError { kind: ErrorKind::UnknownEventCode(0xff, 0xfe, 0x00, 0x80), offset: 0 })
    );
}

#[test]
fn event_that_ends_early() {
    assert_eq!(event_body(b""), Err(short(0)));
    assert_eq!(event_body(b"SST"), Err(short(0)));
    assert_eq!(event_body(b"FTLP"), Err(short(4)));
    assert_eq!(event_body(b"FTLP\x01\x00\x00\x00"), Err(short(5)));
    assert_eq!(event_body(b"SPTP\x01\x00"), Err(short(5)));
    assert_eq!(event_body(b"RTMT"), Err(short(4)));
    assert_eq!(event_body(b"TMPT"), Err(short(4)));
    assert_eq!(event_body(b"PENA"), Err(short(4)));
    assert_eq!(event_body(b"PENA\x00"), Err(short(5)));
    assert_eq!(event_body(b"PENA\x00\x00"), Err(short(6)));
    assert_eq!(event_body(b"PENA\x00\x00\x01\x02\x03\x04"), Err(short(10)));
}

#[test]
fn event_with_invalid_penalty_codes() {
    assert_eq!(
        event_body(b"PENA\x12\x00\x01\x02\x03\x04\x05"),
        Err(ParseError { kind: ErrorKind::InvalidPenaltyType(18), offset: 4 })
    );
    assert_eq!(
        event_body(b"PENA\x11\x34\x01\x02\x03\x04\x05"),
        Err(ParseError { kind: ErrorKind::InvalidInfringementType(52), offset: 5 })
    );
    assert_eq!(
        event_body(b"PENA\xff"),
        Err(ParseError { kind: ErrorKind::InvalidPenaltyType(255), offset: 4 })
    );
}

#[test]
fn car_motion_keeps_every_field() {
    let mut bytes = car_record(3);
    bytes.extend_from_slice(&[9, 9]);
    let (rest, motion) = car_motion(&bytes).unwrap();
    assert_eq!(motion, expected_car(3));
    assert_eq!(f32::from_bits(motion.world_position_z.bits), 302.0);
    assert_eq!(motion.world_right_direction_z, 35);
    assert_eq!(rest, &[9, 9]);
}

#[test]
fn car_motion_that_ends_early_names_the_missing_field() {
    let bytes = car_record(1);
    for len in 0..60usize {
        let start = if (24..36).contains(&len) { len - len % 2 } else { len - len % 4 };
        assert_eq!(car_motion(&bytes[..len]), Err(short(start)), "length {}", len);
    }
}

#[test]
fn motion_body_reads_22_consecutive_records() {
    let mut bytes = motion_bytes();
    bytes.extend_from_slice(&[1, 2, 3]);
    let (rest, body) = motion_body(&bytes).unwrap();
    for slot in 0..22u16 {
        assert_eq!(body.car_motion[slot as usize], expected_car(slot), "slot {}", slot);
    }
    assert_eq!(rest, &[1, 2, 3]);
}

#[test]
fn motion_body_that_ends_early() {
    let bytes = motion_bytes();
    assert_eq!(motion_body(&bytes[..1319]), Err(short(1316)));
    assert_eq!(motion_body(&bytes[..60]), Err(short(60)));
    assert_eq!(motion_body(&bytes[..60 * 7 + 27]), Err(short(60 * 7 + 26)));
    assert_eq!(motion_body(&[]), Err(short(0)));
    assert!(motion_body(&bytes[..1320]).is_ok());
}

#[test]
fn participants_body_holds_the_active_slots() {
    let mut bytes = participants_bytes(&[(7, 0, 0), (9, 2, 1), (58, 1, 1)]);
    bytes.push(0x55);
    let (rest, body) = participants_body(&bytes).unwrap();
    assert_eq!(
        body.participants,
        vec![
            Participant { driver_id: Driver::LewisHamilton, team: Team::Mercedes, ai_controlled: 0 },
            Participant {
                driver_id: Driver::MaxVerstappen,
                team: Team::RedBullRacing,
                ai_controlled: 1
            },
            Participant {
                driver_id: Driver::CharlesLeclerc,
                team: Team::Ferrari,
                ai_controlled: 1
            },
        ]
    );
    assert_eq!(rest, &[0x55]);
}

#[test]
fn participants_body_of_no_and_of_all_slots() {
    let empty = participants_bytes(&[]);
    let (rest, body) = participants_body(&empty).unwrap();
    assert!(body.participants.is_empty());
    assert!(rest.is_empty());
    let all = [(50u8, 3u8, 1u8); 22];
    let full = participants_bytes(&all);
    let (rest, body) = participants_body(&full).unwrap();
    assert_eq!(body.participants.len(), 22);
    assert_eq!(body.participants[21].driver_id, Driver::GeorgeRussell);
    assert_eq!(body.participants[21].team, Team::Williams);
    assert!(rest.is_empty());
}

#[test]
fn participants_body_does_not_look_at_inactive_slots() {
    let mut bytes = participants_bytes(&[(0, 8, 0)]);
    for byte in bytes.iter_mut().skip(4) {
        *byte = 0xff;
    }
    let (_, body) = participants_body(&bytes).unwrap();
    assert_eq!(
        body.participants,
        vec![Participant { driver_id: Driver::CarlosSainz, team: Team::McLaren, ai_controlled: 0 }]
    );
}

#[test]
fn participants_body_errors() {
    assert_eq!(participants_body(&[]), Err(short(0)));
    let mut bytes = participants_bytes(&[(7, 0, 0), (9, 2, 1)]);
    bytes[0] = 23;
    assert_eq!(
        participants_body(&bytes),
        Err(ParseError { kind: ErrorKind::InvalidParticipantCount(23), offset: 0 })
    );
    bytes[0] = 2;
    bytes[4] = 3;
    assert_eq!(
        participants_body(&bytes),
        Err(ParseError { kind: ErrorKind::InvalidDriver(3), offset: 4 })
    );
    bytes[4] = 9;
    bytes[5] = 52;
    assert_eq!(
        participants_body(&bytes),
        Err(ParseError { kind: ErrorKind::InvalidTeam(52), offset: 5 })
    );
    bytes[5] = 2;
    assert_eq!(participants_body(&bytes[..66]), Err(short(7)));
    assert_eq!(participants_body(&bytes[..6]), Err(short(6)));
    assert_eq!(participants_body(&bytes[..4]), Err(short(4)));
    assert!(participants_body(&bytes[..67]).is_ok());
}

#[test]
fn frame_of_the_sample_datagram() {
    let data: &[u8] = b"\xe4\x07\x01\x12\x01\x03\t)\xb4\xdf8P\x1e\x91\x00\x00\x00\x00\x00\x00\x00\x00\x13\xffSSTA\xc8X\xf5/\x00\x00\x00";
    assert_eq!(data.len(), 35);
    let (rest, decoded) = frame(data).unwrap();
    assert_eq!(decoded.header.packet_format, 2020);
    assert_eq!(decoded.header.packet_id, PacketType::Event);
    assert_eq!(decoded.header.session_uid, 10456883590002387209);
    assert_eq!(decoded.header.player_car_index, 19);
    assert_eq!(decoded.header.secondary_player_car_index, 255);
    assert_eq!(
        decoded.body,
        Data::Event(EventBody { code: "SSTA".to_string(), details: EventDetails::SessionStarted })
    );
    assert_eq!(rest, b"\xc8X\xf5/\x00\x00\x00");
}

#[test]
fn frame_of_a_penalty_event() {
    let data: &[u8] = &[
        228, 7, 1, 19, 1, 3, 207, 82, 48, 29, 211, 221, 97, 126, 56, 88, 29, 66, 196, 1, 0, 0,
        19, 255, 80, 69, 78, 65, 16, 41, 19, 255, 255, 1, 255,
    ];
    let (rest, decoded) = frame(data).unwrap();
    assert_eq!(
        decoded.body,
        Data::Event(EventBody {
            code: "PENA".to_string(),
            details: EventDetails::Penalty {
                penalty_type: PenaltyType::Retired,
                infringement_type: InfringementType::RetiredTerminallyDamaged,
                vehicle_id: 19,
                other_vehicle_id: 255,
                time: 255,
                lap_number: 1,
                places_gained: 255,
            },
        })
    );
    assert_eq!(decoded.header.session_time, Float32::from_bits(0x42_1d_58_38));
    assert!(rest.is_empty());
}

#[test]
fn frame_of_a_motion_datagram() {
    let mut data = sample_header(0);
    data.extend_from_slice(&motion_bytes());
    data.extend_from_slice(&[0u8; 120]);
    assert_eq!(data.len(), 1464);
    let (rest, decoded) = frame(&data).unwrap();
    assert_eq!(decoded.header.packet_id, PacketType::Motion);
    match decoded.body {
        Data::Motion(body) => {
            assert_eq!(body.car_motion[0], expected_car(0));
            assert_eq!(body.car_motion[21], expected_car(21));
        }
        other => panic!("not a motion body: {:?}", other),
    }
    assert_eq!(rest.len(), 120);
}

#[test]
fn frame_of_a_participants_datagram() {
    let mut data = sample_header(4);
    data.extend_from_slice(&participants_bytes(&[(54, 8, 0), (2, 5, 1)]));
    let (rest, decoded) = frame(&data).unwrap();
    match decoded.body {
        Data::Participants(body) => {
            assert_eq!(body.participants.len(), 2);
            assert_eq!(body.participants[0].driver_id, Driver::LandoNorris);
            assert_eq!(body.participants[1].team, Team::Renault);
        }
        other => panic!("not a participants body: {:?}", other),
    }
    assert!(rest.is_empty());
}

#[test]
fn frame_of_a_packet_type_without_decoder() {
    for packet_id in [1u8, 2, 5, 6, 7, 8, 9] {
        let mut data = sample_header(packet_id);
        data.extend_from_slice(&[0u8; 100]);
        assert_eq!(
            frame(&data),
            Err(ParseError { kind: ErrorKind::UnsupportedPacketType(packet_id), offset: 5 })
        );
    }
}

#[test]
fn frame_with_an_invalid_packet_type() {
    let mut data = sample_header(200);
    data.extend_from_slice(b"SSTA");
    assert_eq!(
        frame(&data),
        Err(ParseError { kind: ErrorKind::InvalidPacketType(200), offset: 5 })
    );
}

#[test]
fn frame_reports_body_errors_at_their_place_in_the_datagram() {
    let mut data = sample_header(3);
    data.extend_from_slice(b"PENA\x10\x63");
    assert_eq!(
        frame(&data),
        Err(ParseError { kind: ErrorKind::InvalidInfringementType(99), offset: 29 })
    );
    let mut data = sample_header(3);
    data.extend_from_slice(b"XXXX");
    assert_eq!(
        frame(&data),
        Err(ParseError { kind: ErrorKind::UnknownEventCode(88, 88, 88, 88), offset: 24 })
    );
    let mut data = sample_header(0);
    data.extend_from_slice(&motion_bytes()[..61]);
    assert_eq!(frame(&data), Err(short(24 + 60)));
    let data = sample_header(4);
    assert_eq!(frame(&data), Err(short(24)));
    assert_eq!(frame(&data[..10]), Err(short(6)));
    assert_eq!(frame(&[]), Err(short(0)));
}

#[test]
fn decoding_is_the_same_each_time() {
    let mut data = sample_header(0);
    data.extend_from_slice(&motion_bytes());
    assert_eq!(frame(&data), frame(&data));
    assert_eq!(frame(&data[..500]), frame(&data[..500]));
}

#[test]
fn failures_name_their_stage() {
    let stage = |data: &[u8]| frame(data).unwrap_err().stage();
    let mut event = sample_header(3);
    assert_eq!(stage(&event[..23]), Stage::HeaderField);
    assert_eq!(stage(&event[..3]), Stage::HeaderField);
    assert_eq!(stage(&[]), Stage::HeaderField);
    assert_eq!(stage(&event), Stage::BodyField);
    event.extend_from_slice(b"PENA\x63");
    assert_eq!(stage(&event), Stage::BodyField);
    assert_eq!(stage(&sample_header(6)), Stage::TagValidation);
    assert_eq!(stage(&sample_header(10)), Stage::TagValidation);
    assert_eq!(stage(&sample_header(10)[..6]), Stage::TagValidation);
    let mut motion = sample_header(0);
    motion.extend_from_slice(&motion_bytes()[..1000]);
    assert_eq!(stage(&motion), Stage::BodyField);
    let mut participants = sample_header(4);
    participants.extend_from_slice(&[30]);
    assert_eq!(stage(&participants), Stage::BodyField);
}

#[test]
fn numbers_are_held_by_their_bits() {
    assert_eq!(Float32::from_bits(0x3f80_0000).bits, 1.0f32.to_bits());
    assert_eq!(Float32 { bits: 0xc000_0000 }.to_bits(), (-2.0f32).to_bits());
    assert_ne!(float(0.0), float(-0.0));
}
