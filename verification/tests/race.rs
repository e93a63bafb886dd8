use lole::error::PreconditionError;
use lole::frame::event::{EventBody, EventDetails};
use lole::frame::motion::{CarMotion, MotionBody};
use lole::frame::participants::{Driver, Participant, ParticipantsBody, Team};
use lole::frame::{Data, Float32, Frame, Header, PacketType};
use lole::race::{Race, SpatialLocation, Status};

fn float(value: f32) -> Float32 {
    Float32::from_bits(value.to_bits())
}

fn header_of(packet_id: PacketType, session_time: f32) -> Header {
    Header {
        packet_format: 2020,
        game_major_version: 1,
        game_minor_version: 18,
        packet_version: 1,
        packet_id,
        session_uid: 42,
        session_time: float(session_time),
        frame_identifier: 0,
        player_car_index: 0,
        secondary_player_car_index: 255,
    }
}

fn event(code: &str, details: EventDetails) -> Frame {
    Frame {
        header: header_of(PacketType::Event, 0.0),
        body: Data::Event(EventBody { code: code.to_string(), details }),
    }
}

fn roster(drivers: &[Driver]) -> Frame {
    let participants = drivers
        .iter()
        .map(|driver| Participant { driver_id: *driver, team: Team::Mercedes, ai_controlled: 1 })
        .collect();
    Frame {
        header: header_of(PacketType::Participants, 0.0),
        body: Data::Participants(ParticipantsBody { participants }),
    }
}

fn car(slot: usize, lap: f32) -> CarMotion {
    let zero = float(0.0);
    CarMotion {
        world_position_x: float(slot as f32 + lap),
        world_position_y: float(1000.0 + slot as f32 + lap),
        world_position_z: float(2000.0 + slot as f32 + lap),
        world_velocity_x: zero,
        world_velocity_y: zero,
        world_velocity_z: zero,
        world_forward_direction_x: 0,
        world_forward_direction_y: 0,
        world_forward_direction_z: 0,
        world_right_direction_x: 0,
        world_right_direction_y: 0,
        world_right_direction_z: 0,
        g_force_lateral: zero,
        g_force_longitudinal: zero,
        g_force_vertical: zero,
        yaw: zero,
        pitch: zero,
        roll: zero,
    }
}

fn motion(session_time: f32, lap: f32) -> Frame {
    let mut car_motion = [car(0, lap); 22];
    for (slot, record) in car_motion.iter_mut().enumerate() {
        *record = car(slot, lap);
    }
    Frame {
        header: header_of(PacketType::Motion, session_time),
        body: Data::Motion(MotionBody { car_motion }),
    }
}

fn location(driver: Driver, session_time: f32, slot: usize, lap: f32) -> SpatialLocation {
    SpatialLocation {
        driver,
        timestamp: float(session_time),
        coords: (
            float(slot as f32 + lap),
            float(2000.0 + slot as f32 + lap),
            float(1000.0 + slot as f32 + lap),
        ),
    }
}

#[test]
fn a_new_race_knows_nothing() {
    let race = Race::new();
    assert_eq!(race.status, Status::Unknown);
    assert!(race.participants.is_empty());
    assert!(!race.participants_established);
    assert!(race.race_lines.to_vec().is_empty());
}

#[test]
fn session_started_makes_an_unknown_race_unfold() {
    let mut race = Race::new();
    assert_eq!(race.feed_frame(event("SSTA", EventDetails::SessionStarted)), Ok(()));
    assert_eq!(race.status, Status::Unfolding);
    assert_eq!(race.feed_frame(event("SSTA", EventDetails::SessionStarted)), Ok(()));
    assert_eq!(race.status, Status::Unfolding);
}

#[test]
fn session_ended_finishes_a_race_in_any_status() {
    let mut race = Race::new();
    race.feed_frame(event("SEND", EventDetails::SessionEnded)).unwrap();
    assert_eq!(race.status, Status::Finished);

    let mut race = Race::new();
    race.feed_frame(event("SSTA", EventDetails::SessionStarted)).unwrap();
    race.feed_frame(event("SEND", EventDetails::SessionEnded)).unwrap();
    assert_eq!(race.status, Status::Finished);
    race.feed_frame(event("SEND", EventDetails::SessionEnded)).unwrap();
    assert_eq!(race.status, Status::Finished);
}

#[test]
fn session_started_does_not_move_a_finished_race() {
    let mut race = Race::new();
    race.feed_frame(event("SEND", EventDetails::SessionEnded)).unwrap();
    race.feed_frame(event("SSTA", EventDetails::SessionStarted)).unwrap();
    assert_eq!(race.status, Status::Finished);
    race.feed_frame(roster(&[Driver::LewisHamilton])).unwrap();
    race.feed_frame(motion(1.0, 0.0)).unwrap();
    assert_eq!(race.status, Status::Finished);
}

#[test]
fn other_events_leave_the_status() {
    let others = [
        ("CHQF", EventDetails::ChequeredFlag),
        ("DRSE", EventDetails::DRSEnabled),
        ("DRSD", EventDetails::DRSDisabled),
        ("RCWN", EventDetails::RaceWinner),
        ("RTMT", EventDetails::Retirement { vehicle_id: 1 }),
        ("TMPT", EventDetails::TeamMateInPits { vehicle_id: 1 }),
        ("FTLP", EventDetails::FastestLap { vehicle_id: 1, lap_time: float(80.0) }),
        ("SPTP", EventDetails::SpeedTrap { vehicle_id: 1, speed: float(300.0) }),
    ];
    let mut race = Race::new();
    for (code, details) in others {
        race.feed_frame(event(code, details)).unwrap();
        assert_eq!(race.status, Status::Unknown);
    }
    race.feed_frame(event("SSTA", EventDetails::SessionStarted)).unwrap();
    for (code, details) in others {
        race.feed_frame(event(code, details)).unwrap();
        assert_eq!(race.status, Status::Unfolding);
    }
    assert!(race.race_lines.to_vec().is_empty());
}

#[test]
fn participants_are_replaced_as_a_whole() {
    let mut race = Race::new();
    race.feed_frame(roster(&[Driver::LewisHamilton, Driver::MaxVerstappen])).unwrap();
    assert!(race.participants_established);
    assert_eq!(race.participants.len(), 2);
    assert_eq!(race.participants[1].driver_id, Driver::MaxVerstappen);
    race.feed_frame(roster(&[Driver::LandoNorris])).unwrap();
    assert_eq!(race.participants.len(), 1);
    assert_eq!(race.participants[0].driver_id, Driver::LandoNorris);
}

#[test]
fn motion_adds_one_location_for_each_participant() {
    let drivers = [Driver::LewisHamilton, Driver::MaxVerstappen, Driver::CharlesLeclerc];
    let mut race = Race::new();
    race.feed_frame(roster(&drivers)).unwrap();
    assert_eq!(race.feed_frame(motion(12.5, 0.25)), Ok(()));
    assert_eq!(
        race.race_lines.to_vec(),
        vec![
            location(Driver::LewisHamilton, 12.5, 0, 0.25),
            location(Driver::MaxVerstappen, 12.5, 1, 0.25),
            location(Driver::CharlesLeclerc, 12.5, 2, 0.25),
        ]
    );
    let first = race.race_lines.to_vec()[1];
    assert_eq!(f32::from_bits(first.coords.0.bits), 1.25);
    assert_eq!(f32::from_bits(first.coords.1.bits), 2001.25);
    assert_eq!(f32::from_bits(first.coords.2.bits), 1001.25);
    assert_eq!(f32::from_bits(first.timestamp.bits), 12.5);
}

#[test]
fn motion_of_a_full_and_of_an_empty_roster() {
    let mut race = Race::new();
    race.feed_frame(roster(&[Driver::GeorgeRussell; 22])).unwrap();
    race.feed_frame(motion(1.0, 0.0)).unwrap();
    let lines = race.race_lines.to_vec();
    assert_eq!(lines.len(), 22);
    assert_eq!(lines[21], location(Driver::GeorgeRussell, 1.0, 21, 0.0));

    let mut race = Race::new();
    race.feed_frame(roster(&[])).unwrap();
    assert_eq!(race.feed_frame(motion(1.0, 0.0)), Ok(()));
    assert!(race.race_lines.to_vec().is_empty());
}

#[test]
fn motion_before_participants_is_refused() {
    let mut race = Race::new();
    race.feed_frame(event("SSTA", EventDetails::SessionStarted)).unwrap();
    assert_eq!(
        race.feed_frame(motion(1.0, 0.0)),
        Err(PreconditionError::MotionBeforeParticipants)
    );
    assert_eq!(race.status, Status::Unfolding);
    assert!(race.participants.is_empty());
    assert!(race.race_lines.to_vec().is_empty());
    race.feed_frame(roster(&[Driver::LewisHamilton])).unwrap();
    assert_eq!(race.feed_frame(motion(2.0, 0.0)), Ok(()));
    assert_eq!(race.race_lines.to_vec().len(), 1);
}

#[test]
fn lines_grow_in_the_order_of_the_frames() {
    let mut race = Race::new();
    race.feed_frame(roster(&[Driver::LewisHamilton, Driver::MaxVerstappen])).unwrap();
    race.feed_frame(motion(1.0, 0.0)).unwrap();
    race.feed_frame(motion(2.0, 0.5)).unwrap();
    assert_eq!(
        race.race_lines.to_vec(),
        vec![
            location(Driver::LewisHamilton, 1.0, 0, 0.0),
            location(Driver::MaxVerstappen, 1.0, 1, 0.0),
            location(Driver::LewisHamilton, 2.0, 0, 0.5),
            location(Driver::MaxVerstappen, 2.0, 1, 0.5),
        ]
    );
}

#[test]
fn by_driver_picks_the_lines_of_one_driver() {
    let mut race = Race::new();
    race.feed_frame(roster(&[Driver::LewisHamilton, Driver::MaxVerstappen])).unwrap();
    race.feed_frame(motion(1.0, 0.0)).unwrap();
    race.feed_frame(motion(2.0, 0.5)).unwrap();
    race.feed_frame(motion(3.0, 0.75)).unwrap();
    assert_eq!(
        race.race_lines.by_driver(Driver::MaxVerstappen).to_vec(),
        vec![
            location(Driver::MaxVerstappen, 1.0, 1, 0.0),
            location(Driver::MaxVerstappen, 2.0, 1, 0.5),
            location(Driver::MaxVerstappen, 3.0, 1, 0.75),
        ]
    );
    assert_eq!(race.race_lines.to_vec().len(), 6);
    assert!(race.race_lines.by_driver(Driver::LandoNorris).to_vec().is_empty());
}

#[test]
fn by_driver_knows_only_drivers_who_took_part() {
    let mut race = Race::new();
    race.feed_frame(roster(&[Driver::LewisHamilton, Driver::MaxVerstappen])).unwrap();
    race.feed_frame(motion(1.0, 0.0)).unwrap();
    race.feed_frame(roster(&[Driver::LandoNorris])).unwrap();
    race.feed_frame(motion(2.0, 0.5)).unwrap();
    assert_eq!(
        race.race_lines.by_driver(Driver::LandoNorris).to_vec(),
        vec![location(Driver::LandoNorris, 2.0, 0, 0.5)]
    );
    assert_eq!(
        race.race_lines.by_driver(Driver::LewisHamilton).to_vec(),
        vec![location(Driver::LewisHamilton, 1.0, 0, 0.0)]
    );
    assert_eq!(race.race_lines.by_driver(Driver::MaxVerstappen).to_vec().len(), 1);
    for driver in [Driver::CharlesLeclerc, Driver::GeorgeRussell, Driver::CarlosSainz] {
        assert!(race.race_lines.by_driver(driver).to_vec().is_empty());
    }
}

#[test]
fn by_driver_of_a_driver_in_two_slots() {
    let mut race = Race::new();
    race.feed_frame(roster(&[Driver::JackAitken, Driver::LewisHamilton, Driver::JackAitken]))
        .unwrap();
    race.feed_frame(motion(4.0, 0.0)).unwrap();
    assert_eq!(
        race.race_lines.by_driver(Driver::JackAitken).to_vec(),
        vec![
            location(Driver::JackAitken, 4.0, 0, 0.0),
            location(Driver::JackAitken, 4.0, 2, 0.0),
        ]
    );
}
