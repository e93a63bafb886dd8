//! The race aggregator: folds the frames of a session into its status, its
//! participants and the lines that the cars have driven.
use vstd::prelude::*;
use crate::error::PreconditionError;
use crate::frame::{Data, DataView, Float32, Frame, FrameView};
use crate::frame::event::EventDetails;
use crate::frame::motion::CarMotion;
use crate::frame::participants::{Driver, Participant};

verus! {

/// The session time of a motion frame.
pub type Timestamp = Float32;

/// The status of a race.
#[derive(Debug, Clone, Copy, PartialEq, Eq, Structural)]
pub enum Status {
    /// The race has ended.
    Finished,
    /// The race is going on.
    Unfolding,
    /// Nothing is known of the race yet.
    Unknown,
}

/// Where a driver was at a point in time.
///
/// The coordinates are (x, z, y) of the car's world position: the game's axis
/// of height comes last, so that the first two span the ground.
#[derive(Debug, Clone, Copy, PartialEq, Eq)]
pub struct SpatialLocation {
    pub driver: Driver,
    pub timestamp: Timestamp,
    pub coords: (Float32, Float32, Float32),
}

/// The status after an event.
///
/// The start of a session makes the race unfold, unless it has finished
/// already; the end of a session finishes it; no other event changes it.
pub open spec fn status_after(status: Status, details: EventDetails) -> Status {
    match details {
        EventDetails::SessionStarted => if status is Finished {
            Status::Finished
        } else {
            Status::Unfolding
        },
        EventDetails::SessionEnded => Status::Finished,
        _ => status,
    }
}

/// The location of the car in one slot: the driver of the slot, the time of
/// the frame, and the position of the record with its last two axes swapped.
pub open spec fn location_of(
    participant: Participant,
    timestamp: Timestamp,
    motion: CarMotion,
) -> SpatialLocation {
    SpatialLocation {
        driver: participant.driver_id,
        timestamp,
        coords: (motion.world_position_x, motion.world_position_z, motion.world_position_y),
    }
}

/// The locations that a motion frame adds: one for each slot that has both a
/// participant and a motion record, in the order of the slots.
pub open spec fn locations_of(
    participants: Seq<Participant>,
    timestamp: Timestamp,
    motions: Seq<CarMotion>,
) -> Seq<SpatialLocation> {
    Seq::new(
        if participants.len() <= motions.len() {
            participants.len()
        } else {
            motions.len()
        },
        |i: int| location_of(participants[i], timestamp, motions[i]),
    )
}

/// A race as contracts see it.
pub struct RaceView {
    pub status: Status,
    pub participants: Seq<Participant>,
    pub participants_established: bool,
    pub race_lines: Seq<SpatialLocation>,
}

impl RaceView {
    /// The race of which nothing is known yet.
    pub open spec fn initial() -> RaceView {
        RaceView {
            status: Status::Unknown,
            participants: Seq::empty(),
            participants_established: false,
            race_lines: Seq::empty(),
        }
    }

    /// Whether the race takes the frame: every frame but a motion frame that
    /// comes before the participants are known.
    pub open spec fn accepts(self, frame: FrameView) -> bool {
        frame.body is Motion ==> self.participants_established
    }

    /// The race after a frame. A frame that the race does not take leaves
    /// it as it is.
    pub open spec fn feed(self, frame: FrameView) -> RaceView {
        match frame.body {
            DataView::Participants(participants) => RaceView {
                participants,
                participants_established: true,
                ..self
            },
            DataView::Event(event) => RaceView {
                status: status_after(self.status, event.details),
                ..self
            },
            DataView::Motion(motions) => if self.participants_established {
                RaceView {
                    race_lines: self.race_lines + locations_of(
                        self.participants,
                        frame.header.session_time,
                        motions,
                    ),
                    ..self
                }
            } else {
                self
            },
        }
    }
}

/// The test that picks the locations of one driver.
pub open spec fn is_of(driver: Driver) -> spec_fn(SpatialLocation) -> bool {
    |record: SpatialLocation| record.driver == driver
}

/// The lines that the cars have driven: every location that was recorded, in
/// the order in which the frames came.
pub struct RaceLines {
    data: Vec<SpatialLocation>,
}

impl View for RaceLines {
    type V = Seq<SpatialLocation>;

    closed spec fn view(&self) -> Seq<SpatialLocation> {
        self.data@
    }
}

impl RaceLines {
    /// The lines of one driver: the locations of that driver, in the order
    /// in which they were recorded.
    pub fn by_driver(&self, driver: Driver) -> (lines: RaceLines)
        ensures
            lines@ == self@.filter(is_of(driver)),
    {
        let mut filtered_data: Vec<SpatialLocation> = Vec::new();
        let mut i: usize = 0;
        while i < self.data.len()
            invariant
                i <= self.data@.len(),
                filtered_data@ == self.data@.take(i as int).filter(is_of(driver)),
            decreases self.data@.len() - i,
        {
            let record = self.data[i];
            proof {
                let seen = self.data@.take(i as int);
                assert(self.data@.take(i + 1) =~= seen.push(record));
                seen.lemma_filter_push(record, is_of(driver));
            }
            if record.driver == driver {
                filtered_data.push(record);
            }
            i += 1;
        }
        proof {
            assert(self.data@.take(i as int) =~= self.data@);
        }
        RaceLines { data: filtered_data }
    }

    /// The locations as a vector.
    pub fn to_vec(&self) -> (locations: Vec<SpatialLocation>)
        ensures
            locations@ == self@,
    {
        self.data.clone()
    }

    /// Records one more location.
    fn append(&mut self, point: SpatialLocation)
        ensures
            final(self)@ == old(self)@.push(point),
    {
        self.data.push(point);
    }
}

/// The state of one session.
pub struct Race {
    pub status: Status,
    /// The participants of the last participants frame, in the order of
    /// their slots.
    pub participants: Vec<Participant>,
    /// Whether a participants frame has been fed.
    pub participants_established: bool,
    pub race_lines: RaceLines,
}

impl View for Race {
    type V = RaceView;

    open spec fn view(&self) -> RaceView {
        RaceView {
            status: self.status,
            participants: self.participants@,
            participants_established: self.participants_established,
            race_lines: self.race_lines@,
        }
    }
}

impl Race {
    /// A race of which nothing is known yet.
    pub fn new() -> (race: Self)
        ensures
            race@ == RaceView::initial(),
    {
        Race {
            status: Status::Unknown,
            participants: Vec::new(),
            participants_established: false,
            race_lines: RaceLines { data: Vec::new() },
        }
    }

    /// Applies one frame.
    ///
    /// A participants frame replaces the participants, an event frame moves
    /// the status, and a motion frame adds one location for each slot that
    /// has a participant. A motion frame that comes before any participants
    /// frame is refused, and leaves the race as it is.
    pub fn feed_frame(&mut self, frame: Frame) -> (r: Result<(), PreconditionError>)
        ensures
            final(self)@ == old(self)@.feed(frame@),
            r is Ok <==> old(self)@.accepts(frame@),
            r matches Err(e) ==> e == PreconditionError::MotionBeforeParticipants,
    {
        let timestamp: Timestamp = frame.header.session_time;
        match frame.body {
            Data::Participants(body) => {
                self.participants = body.participants;
                self.participants_established = true;
                Ok(())
            },
            Data::Motion(body) => self.handle_motion(timestamp, body.car_motion),
            Data::Event(body) => {
                self.handle_event(body.details);
                Ok(())
            },
        }
    }

    /// Moves the status as the event says.
    fn handle_event(&mut self, details: EventDetails)
        ensures
            final(self)@ == (RaceView {
                status: status_after(old(self).status, details),
                ..old(self)@
            }),
    {
        match details {
            EventDetails::SessionStarted => {
                if self.status != Status::Finished {
                    self.status = Status::Unfolding;
                }
            },
            EventDetails::SessionEnded => {
                self.status = Status::Finished;
            },
            _ => {},
        }
    }

    /// Records where the car of each participant is, unless no participants
    /// are known yet.
    fn handle_motion(&mut self, timestamp: Timestamp, details: [CarMotion; 22]) -> (r: Result<
        (),
        PreconditionError,
    >)
        ensures
            old(self).participants_established ==> r is Ok && final(self)@ == (RaceView {
                race_lines: old(self)@.race_lines + locations_of(
                    old(self)@.participants,
                    timestamp,
                    details@,
                ),
                ..old(self)@
            }),
            !old(self).participants_established ==> r == Err::<(), PreconditionError>(
                PreconditionError::MotionBeforeParticipants,
            ) && final(self)@ == old(self)@,
    {
        if !self.participants_established {
            return Err(PreconditionError::MotionBeforeParticipants);
        }
        let ghost added = locations_of(self.participants@, timestamp, details@);
        let mut i: usize = 0;
        while i < details.len() && i < self.participants.len()
            invariant
                i <= details@.len(),
                i <= self.participants@.len(),
                details@.len() == 22,
                self.status == old(self).status,
                self.participants == old(self).participants,
                self.participants_established == old(self).participants_established,
                added == locations_of(self.participants@, timestamp, details@),
                self.race_lines@ == old(self).race_lines@ + added.take(i as int),
            decreases details@.len() - i,
        {
            let motion = &details[i];
            let driver = self.participants[i].driver_id;
            let point = SpatialLocation {
                driver,
                timestamp,
                coords: (
                    motion.world_position_x,
                    motion.world_position_z,
                    motion.world_position_y,
                ),
            };
            self.race_lines.append(point);
            proof {
                assert(added.take(i + 1) =~= added.take(i as int).push(point));
            }
            i += 1;
        }
        proof {
            assert(added.take(i as int) =~= added);
        }
        Ok(())
    }
}

/// The race after a run of frames, fed in their order to a race of which
/// nothing was known.
pub open spec fn replay(frames: Seq<FrameView>) -> RaceView
    decreases frames.len(),
{
    if frames.len() == 0 {
        RaceView::initial()
    } else {
        replay(frames.drop_last()).feed(frames.last())
    }
}

/// Whether the driver is one of the participants.
pub open spec fn takes_part(participants: Seq<Participant>, driver: Driver) -> bool {
    exists|slot: int| 0 <= slot < participants.len() && participants[slot].driver_id == driver
}

/// Whether one of the frames is a motion frame that came when the driver was
/// one of the participants.
pub open spec fn drove_during(frames: Seq<FrameView>, driver: Driver) -> bool {
    exists|k: int|
        0 <= k < frames.len() && (#[trigger] frames[k]).body is Motion && takes_part(
            replay(frames.take(k)).participants,
            driver,
        )
}

/// The start of a session turns an unknown race into an unfolding one, the
/// end of a session finishes a race in whatever status it is, and the start
/// of a session does not move a finished race.
pub proof fn lemma_status_transitions(race: RaceView, frame: FrameView)
    requires
        frame.body is Event,
    ensures
        frame.body->Event_0.details is SessionStarted && race.status is Unknown ==> race.feed(
            frame,
        ).status is Unfolding,
        frame.body->Event_0.details is SessionEnded ==> race.feed(frame).status is Finished,
        frame.body->Event_0.details is SessionStarted && race.status is Finished ==> race.feed(
            frame,
        ).status is Finished,
{
}

/// No frame moves a finished race out of that status.
pub proof fn lemma_finished_is_terminal(race: RaceView, frame: FrameView)
    requires
        race.status is Finished,
    ensures
        race.feed(frame).status is Finished,
{
}

/// The lines only grow: whatever was recorded stays, in its order, and only
/// a motion frame adds to it.
pub proof fn lemma_lines_only_grow(race: RaceView, frame: FrameView)
    ensures
        race.race_lines.is_prefix_of(race.feed(frame).race_lines),
        !(frame.body is Motion) ==> race.feed(frame).race_lines == race.race_lines,
{
    let after = race.feed(frame).race_lines;
    assert(after.subrange(0, race.race_lines.len() as int) =~= race.race_lines);
}

/// A participants frame of `n` participants followed by a motion frame adds
/// exactly `n` locations to the lines, whatever the race was before: the
/// location of slot `i` has the driver of participant `i`, the session time
/// of the motion frame, and the coordinates (x, z, y) of motion record `i`.
pub proof fn lemma_motion_after_participants(
    race: RaceView,
    roster: FrameView,
    motion: FrameView,
)
    requires
        roster.body is Participants,
        roster.body->Participants_0.len() <= 22,
        motion.body is Motion,
        motion.body->Motion_0.len() == 22,
    ensures
        ({
            let participants = roster.body->Participants_0;
            let records = motion.body->Motion_0;
            let before = race.race_lines;
            let after = race.feed(roster).feed(motion).race_lines;
            &&& race.feed(roster).accepts(motion)
            &&& after.len() == before.len() + participants.len()
            &&& after.take(before.len() as int) == before
            &&& forall|i: int|
                0 <= i < participants.len() ==> #[trigger] after[before.len() + i] == (
                SpatialLocation {
                    driver: participants[i].driver_id,
                    timestamp: motion.header.session_time,
                    coords: (
                        records[i].world_position_x,
                        records[i].world_position_z,
                        records[i].world_position_y,
                    ),
                })
        }),
{
    let before = race.race_lines;
    let after = race.feed(roster).feed(motion).race_lines;
    assert(after.take(before.len() as int) =~= before);
}

/// Every location of the lines belongs to a driver who was one of the
/// participants when the motion frame came that recorded the location.
pub proof fn lemma_lines_are_of_participants(frames: Seq<FrameView>, i: int)
    requires
        0 <= i < replay(frames).race_lines.len(),
    ensures
        drove_during(frames, replay(frames).race_lines[i].driver),
    decreases frames.len(),
{
    let earlier = frames.drop_last();
    let last = frames.last();
    let before = replay(earlier);
    let driver = replay(frames).race_lines[i].driver;
    if i < before.race_lines.len() {
        lemma_lines_are_of_participants(earlier, i);
        let k = choose|k: int|
            0 <= k < earlier.len() && (#[trigger] earlier[k]).body is Motion && takes_part(
                replay(earlier.take(k)).participants,
                driver,
            );
        assert(frames.take(k) =~= earlier.take(k));
        assert(frames[k] == earlier[k]);
    } else {
        let k = frames.len() - 1;
        let slot = i - before.race_lines.len();
        assert(frames.take(k) =~= earlier);
        assert(before.participants[slot].driver_id == driver);
        assert(frames[k].body is Motion);
    }
}

/// The lines of a driver are empty unless the driver was one of the
/// participants when some motion frame came.
pub proof fn lemma_by_driver_is_of_participants(frames: Seq<FrameView>, driver: Driver)
    requires
        replay(frames).race_lines.filter(is_of(driver)).len() > 0,
    ensures
        drove_during(frames, driver),
{
    let lines = replay(frames).race_lines;
    let picked = lines.filter(is_of(driver));
    lines.lemma_filter_pred(is_of(driver), 0);
    lines.lemma_filter_contains_rev(is_of(driver), picked[0]);
    let i = choose|i: int| 0 <= i < lines.len() && lines[i] == picked[0];
    lemma_lines_are_of_participants(frames, i);
}

} // verus!
