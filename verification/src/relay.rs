//! One direction of a paired session.
//!
//! A relay pump moves bytes from one player's connection (the source) to the
//! other player's connection (the destination). The pump itself performs no
//! I/O: it is a state machine that is told what the last transfer did and
//! answers with the next transfer to make. Whoever owns the sockets carries
//! the answers out, in its own thread, and reports back.
//!
//! Bytes are forwarded directly: what a read returns is written to the
//! destination before the next read starts. There is no queue between the
//! two, so a session runs exactly two pumps, one per direction.
//!
//! No write carries more than `CHUNK_SIZE` bytes. A read that returns more
//! than that is cut: the pump hands out one chunk after the other and keeps
//! the rest as its backlog until the chunk before has been written.

use vstd::prelude::*;
use crate::gameplay::Team;

verus! {

/// Upper bound on the bytes asked of the source in a single read and on the
/// bytes handed to the destination in a single write.
pub const CHUNK_SIZE: usize = 1024;

/// Why a pump stopped.
#[derive(PartialEq, Eq, Clone, Copy, Debug, Structural)]
pub enum PumpExit {
    /// The source reached its end of stream.
    SourceClosed,
    /// A read from the source failed.
    ReadFailed,
    /// A write to the destination failed.
    WriteFailed,
}

/// What a pump is waiting for.
#[derive(PartialEq, Eq, Clone, Copy, Debug, Structural)]
pub enum PumpPhase {
    /// A read from the source is under way.
    AwaitingRead,
    /// A chunk was handed out and its write to the destination is under way.
    AwaitingWrite,
    /// The pump is done; nothing is read or written any more.
    Finished(PumpExit),
}

/// What happened on the sockets since the pump's last answer.
#[derive(PartialEq, Eq, Debug)]
pub enum PumpEvent {
    /// The read returned these bytes. No bytes at all means end of stream.
    Received(Vec<u8>),
    /// The read failed.
    ReadFailed,
    /// The chunk was written to the destination in full.
    Written,
    /// The write failed.
    WriteFailed,
}

/// What the owner of the sockets has to do next.
#[derive(PartialEq, Eq, Debug)]
pub enum PumpAction {
    /// Read at most `max` bytes from the source, blocking until some arrive.
    Read { max: usize },
    /// Write all of these bytes, in this order, to the destination. There
    /// is at least one byte and there are at most `CHUNK_SIZE`.
    Forward(Vec<u8>),
    /// The source ended: shut down the write side of the destination, so
    /// that the other player reads an end of stream. The pump is done.
    HalfClose,
    /// A transfer failed: shut down both connections in both directions, so
    /// that the opposite pump and both players notice. The pump is done.
    Abort,
}

/// The event was not the answer to the pump's last request; the pump ignored it.
#[derive(PartialEq, Eq, Clone, Copy, Debug, Structural)]
pub struct OutOfTurn {
    /// What the pump was waiting for.
    pub phase: PumpPhase,
}

/// A `PumpEvent` with its bytes as a sequence.
pub enum PumpEventView {
    Received(Seq<u8>),
    ReadFailed,
    Written,
    WriteFailed,
}

/// A `PumpAction` with its bytes as a sequence.
pub enum PumpActionView {
    Read { max: nat },
    Forward(Seq<u8>),
    HalfClose,
    Abort,
}

impl View for PumpEvent {
    type V = PumpEventView;

    open spec fn view(&self) -> PumpEventView {
        match self {
            PumpEvent::Received(data) => PumpEventView::Received(data@),
            PumpEvent::ReadFailed => PumpEventView::ReadFailed,
            PumpEvent::Written => PumpEventView::Written,
            PumpEvent::WriteFailed => PumpEventView::WriteFailed,
        }
    }
}

impl View for PumpAction {
    type V = PumpActionView;

    open spec fn view(&self) -> PumpActionView {
        match self {
            PumpAction::Read { max } => PumpActionView::Read { max: *max as nat },
            PumpAction::Forward(data) => PumpActionView::Forward(data@),
            PumpAction::HalfClose => PumpActionView::HalfClose,
            PumpAction::Abort => PumpActionView::Abort,
        }
    }
}

impl PumpEventView {
    /// The bytes that the event brings from the source.
    pub open spec fn payload(self) -> Seq<u8> {
        match self {
            PumpEventView::Received(data) => data,
            _ => Seq::empty(),
        }
    }

    /// The event shows that nothing more will come from the source.
    pub open spec fn ends_source(self) -> bool {
        match self {
            PumpEventView::Received(data) => data.len() == 0,
            PumpEventView::ReadFailed => true,
            _ => false,
        }
    }
}

impl PumpActionView {
    /// The bytes that the action sends to the destination.
    pub open spec fn payload(self) -> Seq<u8> {
        match self {
            PumpActionView::Forward(data) => data,
            _ => Seq::empty(),
        }
    }

    /// The action shuts down the write side of the destination, which the
    /// player behind it observes as an end of stream.
    pub open spec fn closes_destination(self) -> bool {
        self is HalfClose || self is Abort
    }
}

/// The length of the chunk that is cut off the front of `data`.
pub open spec fn chunk_len(data: Seq<u8>) -> int {
    if data.len() > CHUNK_SIZE {
        CHUNK_SIZE as int
    } else {
        data.len() as int
    }
}

/// The first `CHUNK_SIZE` bytes of `data`, or all of it where it is shorter.
pub open spec fn first_chunk(data: Seq<u8>) -> Seq<u8> {
    data.subrange(0, chunk_len(data))
}

/// What is left of `data` behind its first chunk.
pub open spec fn behind_first_chunk(data: Seq<u8>) -> Seq<u8> {
    data.subrange(chunk_len(data), data.len() as int)
}

/// A phase and a backlog together with the action that leads into them.
pub struct PumpStep {
    pub phase: PumpPhase,
    pub backlog: Seq<u8>,
    pub action: PumpActionView,
}

/// The pump's rule: what it answers to `event` while in `phase` with
/// `backlog` still to be handed out, and where it moves to. `None` where the
/// event is not what the phase waits for.
///
/// * A read that brought bytes: forward their first chunk and keep the rest
///   as the backlog.
/// * A read that brought nothing: the source is closed; half-close the
///   destination and finish.
/// * A completed write: forward the first chunk of the backlog, or, with no
///   backlog left, read on.
/// * A failed read or write: abort and finish. After a failed write the
///   backlog stays where it is: it is never handed out.
pub open spec fn pump_step(phase: PumpPhase, backlog: Seq<u8>, event: PumpEventView) -> Option<
    PumpStep,
> {
    match (phase, event) {
        (PumpPhase::AwaitingRead, PumpEventView::Received(data)) => {
            if data.len() == 0 {
                Some(
                    PumpStep {
                        phase: PumpPhase::Finished(PumpExit::SourceClosed),
                        backlog: Seq::empty(),
                        action: PumpActionView::HalfClose,
                    },
                )
            } else {
                Some(
                    PumpStep {
                        phase: PumpPhase::AwaitingWrite,
                        backlog: behind_first_chunk(data),
                        action: PumpActionView::Forward(first_chunk(data)),
                    },
                )
            }
        },
        (PumpPhase::AwaitingRead, PumpEventView::ReadFailed) => Some(
            PumpStep {
                phase: PumpPhase::Finished(PumpExit::ReadFailed),
                backlog: Seq::empty(),
                action: PumpActionView::Abort,
            },
        ),
        (PumpPhase::AwaitingWrite, PumpEventView::Written) => {
            if backlog.len() == 0 {
                Some(
                    PumpStep {
                        phase: PumpPhase::AwaitingRead,
                        backlog: Seq::empty(),
                        action: PumpActionView::Read { max: CHUNK_SIZE as nat },
                    },
                )
            } else {
                Some(
                    PumpStep {
                        phase: PumpPhase::AwaitingWrite,
                        backlog: behind_first_chunk(backlog),
                        action: PumpActionView::Forward(first_chunk(backlog)),
                    },
                )
            }
        },
        (PumpPhase::AwaitingWrite, PumpEventView::WriteFailed) => Some(
            PumpStep {
                phase: PumpPhase::Finished(PumpExit::WriteFailed),
                backlog,
                action: PumpActionView::Abort,
            },
        ),
        _ => None,
    }
}

/// No chunk is empty and none is longer than `CHUNK_SIZE`, whatever the
/// reads return: every write that the pump asks for carries between 1 and
/// `CHUNK_SIZE` bytes. A stream longer than that reaches the destination in
/// several writes, and nothing of it is lost on the way: a chunk and what is
/// kept behind it make up the bytes they were cut from.
pub proof fn lemma_chunks_are_bounded(phase: PumpPhase, backlog: Seq<u8>, event: PumpEventView)
    requires
        pump_step(phase, backlog, event) is Some,
    ensures
        pump_step(phase, backlog, event)->Some_0.action matches PumpActionView::Forward(chunk)
            ==> 1 <= chunk.len() <= CHUNK_SIZE,
        pump_step(phase, backlog, event)->Some_0.action is Forward ==> pump_step(
            phase,
            backlog,
            event,
        )->Some_0.action.payload() + pump_step(phase, backlog, event)->Some_0.backlog == (if phase
            == PumpPhase::AwaitingRead {
            event.payload()
        } else {
            backlog
        }),
        pump_step(phase, backlog, event)->Some_0.action matches PumpActionView::Read { max }
            ==> max == CHUNK_SIZE,
{
}

/// Failure propagation in one step: when the source has ended, by an end of
/// stream or by a failed read, a pump that awaits its read finishes at once,
/// and its answer shuts down the write side of the destination. The player
/// behind the destination then reads an end of stream.
pub proof fn lemma_end_of_source_closes_destination(backlog: Seq<u8>, event: PumpEventView)
    requires
        event.ends_source(),
    ensures
        pump_step(PumpPhase::AwaitingRead, backlog, event) is Some,
        pump_step(PumpPhase::AwaitingRead, backlog, event)->Some_0.phase is Finished,
        pump_step(PumpPhase::AwaitingRead, backlog, event)->Some_0.action.closes_destination(),
{
}

/// A pump finishes exactly with the answers that close the destination: it
/// never stops silently, and it never closes the destination and goes on.
/// A failed transfer is never tried again: it finishes the pump at once.
pub proof fn lemma_pump_finishes_by_closing(
    phase: PumpPhase,
    backlog: Seq<u8>,
    event: PumpEventView,
)
    requires
        pump_step(phase, backlog, event) is Some,
    ensures
        pump_step(phase, backlog, event)->Some_0.phase is Finished <==> pump_step(
            phase,
            backlog,
            event,
        )->Some_0.action.closes_destination(),
        event is ReadFailed || event is WriteFailed ==> pump_step(
            phase,
            backlog,
            event,
        )->Some_0.phase is Finished,
        !(phase is Finished),
{
}

impl PumpEvent {
    /// The event for a read that filled the first `count` bytes of `buffer`.
    pub fn from_read(buffer: &[u8], count: usize) -> (event: PumpEvent)
        requires
            count <= buffer@.len(),
        ensures
            event@ == PumpEventView::Received(buffer@.subrange(0, count as int)),
    {
        let mut data: Vec<u8> = Vec::new();
        let mut i: usize = 0;
        while i < count
            invariant
                i <= count <= buffer@.len(),
                data@ == buffer@.subrange(0, i as int),
            decreases count - i,
        {
            data.push(buffer[i]);
            i += 1;
        }
        PumpEvent::Received(data)
    }
}

/// What a pump is: the side it reads from, what it waits for, and the bytes
/// that it has received and not handed out yet.
pub struct PumpState {
    pub source: Team,
    pub phase: PumpPhase,
    pub backlog: Seq<u8>,
}

/// The state machine of one relay direction.
pub struct RelayPump {
    source: Team,
    phase: PumpPhase,
    backlog: Vec<u8>,
}

impl View for RelayPump {
    type V = PumpState;

    closed spec fn view(&self) -> PumpState {
        PumpState { source: self.source, phase: self.phase, backlog: self.backlog@ }
    }
}

/// Cuts `data` down to its first chunk and returns what was behind it.
fn cut_first_chunk(data: &mut Vec<u8>) -> (rest: Vec<u8>)
    ensures
        final(data)@ == first_chunk(old(data)@),
        rest@ == behind_first_chunk(old(data)@),
{
    if data.len() > CHUNK_SIZE {
        data.split_off(CHUNK_SIZE)
    } else {
        assert(data@.subrange(0, data@.len() as int) == data@);
        Vec::new()
    }
}

impl RelayPump {
    /// A pump that forwards what the player on side `source` sends, together
    /// with its first request: a read of at most `CHUNK_SIZE` bytes.
    pub fn start(source: Team) -> (r: (RelayPump, PumpAction))
        ensures
            r.0@ == (PumpState { source, phase: PumpPhase::AwaitingRead, backlog: Seq::empty() }),
            r.1@ == (PumpActionView::Read { max: CHUNK_SIZE as nat }),
    {
        (
            RelayPump { source, phase: PumpPhase::AwaitingRead, backlog: Vec::new() },
            PumpAction::Read { max: CHUNK_SIZE },
        )
    }

    /// Takes in what the last request led to and answers with the next one.
    ///
    /// The answer, the new phase and the new backlog are those of
    /// `pump_step`. In particular a `Forward` carries between 1 and
    /// `CHUNK_SIZE` bytes. An event that the pump is not waiting for changes
    /// nothing and is reported as `OutOfTurn`; a finished pump waits for no
    /// event at all.
    pub fn step(&mut self, event: PumpEvent) -> (r: Result<PumpAction, OutOfTurn>)
        ensures
            final(self)@.source == old(self)@.source,
            match pump_step(old(self)@.phase, old(self)@.backlog, event@) {
                Some(next) => r is Ok && r->Ok_0@ == next.action && final(self)@.phase
                    == next.phase && final(self)@.backlog == next.backlog,
                None => r == Err::<PumpAction, OutOfTurn>(OutOfTurn { phase: old(self)@.phase })
                    && final(self)@ == old(self)@,
            },
            r matches Ok(PumpAction::Forward(chunk)) ==> 1 <= chunk@.len() <= CHUNK_SIZE,
    {
        match self.phase {
            PumpPhase::AwaitingRead => match event {
                PumpEvent::Received(data) => {
                    if data.len() == 0 {
                        self.phase = PumpPhase::Finished(PumpExit::SourceClosed);
                        self.backlog = Vec::new();
                        Ok(PumpAction::HalfClose)
                    } else {
                        let mut chunk = data;
                        self.backlog = cut_first_chunk(&mut chunk);
                        self.phase = PumpPhase::AwaitingWrite;
                        Ok(PumpAction::Forward(chunk))
                    }
                },
                PumpEvent::ReadFailed => {
                    self.phase = PumpPhase::Finished(PumpExit::ReadFailed);
                    self.backlog = Vec::new();
                    Ok(PumpAction::Abort)
                },
                _ => Err(OutOfTurn { phase: self.phase }),
            },
            PumpPhase::AwaitingWrite => match event {
                PumpEvent::Written => {
                    if self.backlog.len() == 0 {
                        self.phase = PumpPhase::AwaitingRead;
                        self.backlog = Vec::new();
                        Ok(PumpAction::Read { max: CHUNK_SIZE })
                    } else {
                        let mut chunk: Vec<u8> = Vec::new();
                        std::mem::swap(&mut chunk, &mut self.backlog);
                        self.backlog = cut_first_chunk(&mut chunk);
                        Ok(PumpAction::Forward(chunk))
                    }
                },
                PumpEvent::WriteFailed => {
                    self.phase = PumpPhase::Finished(PumpExit::WriteFailed);
                    Ok(PumpAction::Abort)
                },
                _ => Err(OutOfTurn { phase: self.phase }),
            },
            PumpPhase::Finished(_) => Err(OutOfTurn { phase: self.phase }),
        }
    }

    /// How many bytes the pump has received and not handed out yet.
    pub fn backlog_len(&self) -> (len: usize)
        ensures
            len == self@.backlog.len(),
    {
        self.backlog.len()
    }

    /// The side whose bytes this pump reads.
    pub fn source(&self) -> (team: Team)
        ensures
            team == self@.source,
    {
        self.source
    }

    /// The side that this pump writes to.
    pub fn destination(&self) -> (team: Team)
        ensures
            team == self@.source.other(),
    {
        self.source.opposite()
    }

    /// What the pump is waiting for.
    pub fn phase(&self) -> (phase: PumpPhase)
        ensures
            phase == self@.phase,
    {
        self.phase
    }

    /// Whether the pump is done.
    pub fn is_finished(&self) -> (done: bool)
        ensures
            done == (self@.phase is Finished),
    {
        match self.phase {
            PumpPhase::Finished(_) => true,
            _ => false,
        }
    }
}

} // verus!
