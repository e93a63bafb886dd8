//! The decisions of the ingestion pipeline.
//!
//! The pipeline reads datagrams from a source and publishes the frames that
//! they hold on a queue. Reading and publishing are the caller's work; what
//! to do next is decided here. The caller starts by receiving, and after
//! each thing that happens it asks [`next_action`] what to do.
use vstd::prelude::*;
use crate::error::{AppError, ErrorKind, ParseError};
use crate::frame::{Frame, FrameView, PacketType};
use crate::parser::frame;
use crate::wire::spec_frame;

verus! {

/// The size of the buffer that a datagram is read into: that of the largest
/// packet of the protocol.
pub const MAX_DATAGRAM_SIZE: usize = 1464;

/// What happened to the pipeline's last action.
#[derive(Debug)]
pub enum Event<'a> {
    /// The source has handed out a datagram.
    Datagram(&'a [u8]),
    /// The source has failed.
    ReceiveFailed(std::io::Error),
    /// The frame has been put on the queue.
    Published,
    /// The queue has not taken the frame: nobody is left to receive it.
    PublishFailed,
}

/// What the pipeline does next.
#[derive(Debug)]
pub enum Action {
    /// Read the next datagram from the source.
    Receive,
    /// Put the frame on the queue.
    Publish(Frame),
    /// Stop for good, and hand the error to whoever started the pipeline.
    Stop(AppError),
}

/// The frame that a datagram holds, if it holds one.
pub open spec fn frame_of(datagram: Seq<u8>) -> Option<FrameView> {
    match spec_frame(datagram) {
        Ok((view, _)) => Some(view),
        Err(_) => None,
    }
}

/// The frames that a run of datagrams makes the pipeline publish: those of
/// the datagrams that hold one, in the order of the datagrams.
pub open spec fn published(datagrams: Seq<Seq<u8>>) -> Seq<FrameView>
    decreases datagrams.len(),
{
    if datagrams.len() == 0 {
        Seq::empty()
    } else {
        let earlier = published(datagrams.drop_last());
        match frame_of(datagrams.last()) {
            Some(view) => earlier.push(view),
            None => earlier,
        }
    }
}

/// Decides what to do with a datagram: publish the frame that it holds, or
/// drop it and read the next one where it holds none. No datagram stops the
/// pipeline.
pub fn on_datagram(datagram: &[u8]) -> (action: Action)
    ensures
        match frame_of(datagram@) {
            Some(view) => action matches Action::Publish(frame) && frame@ == view,
            None => action is Receive,
        },
{
    match frame(datagram) {
        Ok((_, frame)) => Action::Publish(frame),
        Err(_) => Action::Receive,
    }
}

/// Decides what the pipeline does next.
///
/// A datagram is published or dropped as [`on_datagram`] says. After a frame
/// has been published the next datagram is read. A failure of the source or
/// of the queue stops the pipeline.
pub fn next_action(event: Event) -> (action: Action)
    ensures
        match event {
            Event::Datagram(datagram) => match frame_of(datagram@) {
                Some(view) => action matches Action::Publish(frame) && frame@ == view,
                None => action is Receive,
            },
            Event::ReceiveFailed(e) => action matches Action::Stop(AppError::IOError(err)) && err
                == e,
            Event::Published => action is Receive,
            Event::PublishFailed => action matches Action::Stop(AppError::PublishError),
        },
{
    match event {
        Event::Datagram(datagram) => on_datagram(datagram),
        Event::ReceiveFailed(e) => Action::Stop(AppError::from(e)),
        Event::Published => Action::Receive,
        Event::PublishFailed => Action::Stop(AppError::PublishError),
    }
}


/// Every frame fits into the buffer that datagrams are read into.
pub proof fn lemma_frame_fits_buffer(datagram: Seq<u8>)
    requires
        spec_frame(datagram) is Ok,
    ensures
        spec_frame(datagram)->Ok_0.1 <= MAX_DATAGRAM_SIZE,
{
}

/// A datagram whose packet type is no wire code holds no frame: the decoder
/// refuses it for that byte, and the pipeline drops it.
pub proof fn lemma_invalid_packet_type_is_dropped(datagram: Seq<u8>)
    requires
        datagram.len() > 5,
        !PacketType::is_wire_code(datagram[5]),
    ensures
        spec_frame(datagram) == Err::<(FrameView, int), ParseError>(
            ParseError { kind: ErrorKind::InvalidPacketType(datagram[5]), offset: 5 },
        ),
        frame_of(datagram) is None,
{
    PacketType::lemma_decodes_every_byte(datagram[5]);
}

/// What two runs of datagrams publish one after the other, they publish
/// together.
pub proof fn lemma_published_in_order(first: Seq<Seq<u8>>, second: Seq<Seq<u8>>)
    ensures
        published(first + second) == published(first) + published(second),
    decreases second.len(),
{
    if second.len() == 0 {
        assert(first + second =~= first);
        assert(published(first) + published(second) =~= published(first));
    } else {
        lemma_published_in_order(first, second.drop_last());
        assert((first + second).drop_last() =~= first + second.drop_last());
        assert((first + second).last() == second.last());
        let earlier = published(first) + published(second.drop_last());
        match frame_of(second.last()) {
            Some(view) => {
                assert(earlier.push(view) =~= published(first) + published(
                    second.drop_last(),
                ).push(view));
            },
            None => {},
        }
    }
}

/// A datagram that holds no frame leaves no trace in what is published:
/// the frames before it and behind it follow each other as if it had never
/// come.
pub proof fn lemma_dropped_leaves_no_gap(
    before: Seq<Seq<u8>>,
    dropped: Seq<u8>,
    after: Seq<Seq<u8>>,
)
    requires
        frame_of(dropped) is None,
    ensures
        published(before.push(dropped) + after) == published(before) + published(after),
{
    lemma_published_in_order(before.push(dropped), after);
    assert(before.push(dropped).drop_last() =~= before);
}

} // verus!
