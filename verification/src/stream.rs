//! The byte streams of a pump's whole run.
//!
//! A run is the sequence of events that a pump was given since it started.
//! From a run one can tell which bytes came out of the source, which bytes
//! the pump handed on for writing, and which of them reached the
//! destination. The laws of this module say that the pump neither drops,
//! repeats nor reorders a byte, wherever the reads happened to cut the stream.

use vstd::prelude::*;
use crate::relay::{
    behind_first_chunk, first_chunk, pump_step, PumpActionView, PumpEventView,
    PumpExit, PumpPhase, PumpStep, CHUNK_SIZE,
};

verus! {

/// Where a pump stands once it has started and was then given `events` in
/// order: its phase, its backlog and its latest answer. `None` where one of
/// the events came out of turn: such a run cannot happen with a caller that
/// does what the pump asks.
pub open spec fn step_after(events: Seq<PumpEventView>) -> Option<PumpStep>
    decreases events.len(),
{
    if events.len() == 0 {
        Some(
            PumpStep {
                phase: PumpPhase::AwaitingRead,
                backlog: Seq::empty(),
                action: PumpActionView::Read { max: CHUNK_SIZE as nat },
            },
        )
    } else {
        match step_after(events.drop_last()) {
            Some(before) => pump_step(before.phase, before.backlog, events.last()),
            None => None,
        }
    }
}

/// The phase of the pump after the run.
pub open spec fn phase_after(events: Seq<PumpEventView>) -> Option<PumpPhase> {
    match step_after(events) {
        Some(step) => Some(step.phase),
        None => None,
    }
}

/// The bytes that the pump has received and not handed out yet.
pub open spec fn backlog_after(events: Seq<PumpEventView>) -> Seq<u8> {
    match step_after(events) {
        Some(step) => step.backlog,
        None => Seq::empty(),
    }
}

/// The chunk that the pump's latest answer handed out for writing, and whose
/// write has therefore not been reported yet; empty where the latest answer
/// was no `Forward`.
pub open spec fn bytes_in_flight(events: Seq<PumpEventView>) -> Seq<u8> {
    match step_after(events) {
        Some(step) => step.action.payload(),
        None => Seq::empty(),
    }
}

/// All bytes that the reads of the run returned, in the order of the reads.
pub open spec fn bytes_received(events: Seq<PumpEventView>) -> Seq<u8>
    decreases events.len(),
{
    if events.len() == 0 {
        Seq::empty()
    } else {
        bytes_received(events.drop_last()) + events.last().payload()
    }
}

/// All bytes that the pump handed out in `Forward` actions during the run,
/// in the order of the actions.
pub open spec fn bytes_forwarded(events: Seq<PumpEventView>) -> Seq<u8>
    decreases events.len(),
{
    if events.len() == 0 {
        Seq::empty()
    } else {
        bytes_forwarded(events.drop_last()) + bytes_in_flight(events)
    }
}

/// All bytes whose write to the destination was reported as complete.
pub open spec fn bytes_delivered(events: Seq<PumpEventView>) -> Seq<u8>
    decreases events.len(),
{
    if events.len() == 0 {
        Seq::empty()
    } else {
        let before = events.drop_last();
        if events.last() is Written && phase_after(before) == Some(PumpPhase::AwaitingWrite) {
            bytes_delivered(before) + bytes_in_flight(before)
        } else {
            bytes_delivered(before)
        }
    }
}

/// A run that is in turn up to its end was in turn at every earlier point.
pub proof fn lemma_run_prefix_in_turn(events: Seq<PumpEventView>)
    requires
        events.len() > 0,
        step_after(events) is Some,
    ensures
        step_after(events.drop_last()) is Some,
        step_after(events) == pump_step(
            step_after(events.drop_last())->Some_0.phase,
            step_after(events.drop_last())->Some_0.backlog,
            events.last(),
        ),
{
}

/// What one more event does to a run.
pub proof fn lemma_run_extended(events: Seq<PumpEventView>, event: PumpEventView)
    ensures
        step_after(events.push(event)) == match step_after(events) {
            Some(before) => pump_step(before.phase, before.backlog, event),
            None => None,
        },
        bytes_received(events.push(event)) == bytes_received(events) + event.payload(),
        bytes_forwarded(events.push(event)) == bytes_forwarded(events) + bytes_in_flight(
            events.push(event),
        ),
        bytes_delivered(events.push(event)) == if event is Written && phase_after(events) == Some(
            PumpPhase::AwaitingWrite,
        ) {
            bytes_delivered(events) + bytes_in_flight(events)
        } else {
            bytes_delivered(events)
        },
{
    assert(events.push(event).drop_last() == events);
}

/// How phase, backlog and latest answer go together in every run. A pump
/// that awaits a read has no backlog; a pump awaits a write exactly when its
/// latest answer handed out a chunk, which then has between 1 and
/// `CHUNK_SIZE` bytes; and a pump is finished exactly when its latest answer
/// closed the destination.
pub proof fn lemma_run_shape(events: Seq<PumpEventView>)
    requires
        step_after(events) is Some,
    ensures
        phase_after(events) == Some(PumpPhase::AwaitingRead) ==> backlog_after(events).len() == 0
            && step_after(events)->Some_0.action is Read,
        phase_after(events) == Some(PumpPhase::AwaitingWrite) <==> step_after(
            events,
        )->Some_0.action is Forward,
        phase_after(events) == Some(PumpPhase::AwaitingWrite) ==> 1 <= bytes_in_flight(
            events,
        ).len() <= CHUNK_SIZE,
        phase_after(events) != Some(PumpPhase::AwaitingWrite) ==> bytes_in_flight(events).len()
            == 0,
        phase_after(events)->Some_0 is Finished <==> step_after(
            events,
        )->Some_0.action.closes_destination(),
        phase_after(events)->Some_0 is Finished && phase_after(events) != Some(
            PumpPhase::Finished(PumpExit::WriteFailed),
        ) ==> backlog_after(events).len() == 0,
{
    if events.len() > 0 {
        lemma_run_prefix_in_turn(events);
    }
}

/// A chunk and what is kept behind it make up the bytes they were cut from.
proof fn lemma_cut_loses_nothing(data: Seq<u8>)
    ensures
        first_chunk(data) + behind_first_chunk(data) == data,
{
}

/// Byte-stream fidelity of what the pump hands on: in every run, the bytes of
/// the `Forward` actions, put together in order and followed by the backlog,
/// are exactly the bytes that the reads returned, put together in order.
pub proof fn lemma_forwards_what_it_receives(events: Seq<PumpEventView>)
    requires
        step_after(events) is Some,
    ensures
        bytes_forwarded(events) + backlog_after(events) == bytes_received(events),
    decreases events.len(),
{
    if events.len() > 0 {
        let before = events.drop_last();
        lemma_run_prefix_in_turn(events);
        lemma_forwards_what_it_receives(before);
        lemma_run_shape(before);
        lemma_cut_loses_nothing(events.last().payload());
        lemma_cut_loses_nothing(backlog_after(before));
        let sent = bytes_forwarded(before);
        let chunk = bytes_in_flight(events);
        let kept = backlog_after(events);
        assert((sent + chunk) + kept == sent + (chunk + kept));
        if phase_after(before) == Some(PumpPhase::AwaitingRead) {
            assert(sent + backlog_after(before) == sent);
            assert(chunk + kept == events.last().payload());
        } else {
            assert(events.last().payload() == Seq::<u8>::empty());
            assert(bytes_received(before) + Seq::<u8>::empty() == bytes_received(before));
            assert(chunk + kept == backlog_after(before));
        }
    }
}

/// As long as no write has failed, every chunk that was handed out has been
/// delivered, but for the one whose write is under way.
pub proof fn lemma_delivers_what_it_forwards(events: Seq<PumpEventView>)
    requires
        step_after(events) is Some,
        phase_after(events) != Some(PumpPhase::Finished(PumpExit::WriteFailed)),
    ensures
        bytes_delivered(events) + bytes_in_flight(events) == bytes_forwarded(events),
    decreases events.len(),
{
    if events.len() > 0 {
        let before = events.drop_last();
        lemma_run_prefix_in_turn(events);
        lemma_delivers_what_it_forwards(before);
        lemma_run_shape(before);
        if phase_after(before) == Some(PumpPhase::AwaitingRead) {
            assert(bytes_delivered(before) + bytes_in_flight(before) == bytes_delivered(before));
        }
    }
}

/// Byte-stream fidelity at the destination: as long as no write has failed,
/// the bytes delivered so far, the chunk in flight and the backlog are, in
/// this order, exactly the bytes received so far. So whenever the pump
/// awaits a read, and when the source has ended, the destination holds the
/// source's stream byte for byte.
pub proof fn lemma_delivers_what_it_receives(events: Seq<PumpEventView>)
    requires
        step_after(events) is Some,
        phase_after(events) != Some(PumpPhase::Finished(PumpExit::WriteFailed)),
    ensures
        bytes_delivered(events) + bytes_in_flight(events) + backlog_after(events)
            == bytes_received(events),
        phase_after(events) != Some(PumpPhase::AwaitingWrite) ==> bytes_delivered(events)
            == bytes_received(events),
{
    lemma_delivers_what_it_forwards(events);
    lemma_forwards_what_it_receives(events);
    lemma_run_shape(events);
    if phase_after(events) != Some(PumpPhase::AwaitingWrite) {
        assert(bytes_delivered(events) + bytes_in_flight(events) == bytes_delivered(events));
        assert(bytes_delivered(events) + backlog_after(events) == bytes_delivered(events));
    }
}

/// Whatever happens, the destination never gets a byte that the source did
/// not send, nor a byte out of place: the bytes delivered are always a
/// prefix of the bytes received.
pub proof fn lemma_delivered_is_prefix(events: Seq<PumpEventView>)
    requires
        step_after(events) is Some,
    ensures
        bytes_delivered(events).is_prefix_of(bytes_received(events)),
{
    let whole = if phase_after(events) == Some(PumpPhase::Finished(PumpExit::WriteFailed)) {
        events.drop_last()
    } else {
        events
    };
    if whole != events {
        lemma_run_prefix_in_turn(events);
        assert(bytes_received(whole) + Seq::<u8>::empty() == bytes_received(whole));
    }
    lemma_delivers_what_it_receives(whole);
    let tail = bytes_in_flight(whole) + backlog_after(whole);
    assert(bytes_delivered(whole) + bytes_in_flight(whole) + backlog_after(whole)
        == bytes_delivered(whole) + tail);
    assert(bytes_delivered(whole) == (bytes_delivered(whole) + tail).subrange(
        0,
        bytes_delivered(whole).len() as int,
    ));
}

/// The bytes of `chunks`, put together in order.
pub open spec fn joined(chunks: Seq<Seq<u8>>) -> Seq<u8>
    decreases chunks.len(),
{
    if chunks.len() == 0 {
        Seq::empty()
    } else {
        joined(chunks.drop_last()) + chunks.last()
    }
}

/// The run in which the reads return `chunks` one after the other and every
/// write succeeds.
pub open spec fn smooth_run(chunks: Seq<Seq<u8>>) -> Seq<PumpEventView>
    decreases chunks.len(),
{
    if chunks.len() == 0 {
        Seq::empty()
    } else {
        smooth_run(chunks.drop_last()).push(PumpEventView::Received(chunks.last())).push(
            PumpEventView::Written,
        )
    }
}

/// The relay is a relay of bytes, not of messages: however the reads cut a
/// stream into chunks, as long as each read returns at least one byte and at
/// most the `CHUNK_SIZE` bytes that the pump asked for, and every write
/// succeeds, the pump stays in turn, and when the source then ends the
/// destination has been sent the whole stream, byte for byte, and is
/// half-closed.
pub proof fn lemma_stream_arrives_whole(chunks: Seq<Seq<u8>>)
    requires
        forall|i: int| 0 <= i < chunks.len() ==> 1 <= (#[trigger] chunks[i]).len() <= CHUNK_SIZE,
    ensures
        phase_after(smooth_run(chunks)) == Some(PumpPhase::AwaitingRead),
        bytes_received(smooth_run(chunks)) == joined(chunks),
        bytes_delivered(smooth_run(chunks)) == joined(chunks),
        phase_after(smooth_run(chunks).push(PumpEventView::Received(Seq::empty()))) == Some(
            PumpPhase::Finished(PumpExit::SourceClosed),
        ),
        bytes_delivered(smooth_run(chunks).push(PumpEventView::Received(Seq::empty())))
            == joined(chunks),
    decreases chunks.len(),
{
    if chunks.len() > 0 {
        let earlier = chunks.drop_last();
        let read = smooth_run(earlier).push(PumpEventView::Received(chunks.last()));
        lemma_stream_arrives_whole(earlier);
        lemma_run_shape(smooth_run(earlier));
        lemma_run_extended(smooth_run(earlier), PumpEventView::Received(chunks.last()));
        lemma_run_extended(read, PumpEventView::Written);
        assert(bytes_received(read) + Seq::<u8>::empty() == bytes_received(read));
    }
    lemma_run_shape(smooth_run(chunks));
    lemma_delivers_what_it_receives(smooth_run(chunks));
    lemma_run_extended(smooth_run(chunks), PumpEventView::Received(Seq::empty()));
}

/// The number of completed writes after which a pump that is writing, with
/// `backlog` bytes still to be handed out, reads again: one for the chunk in
/// flight and one for each chunk of the backlog.
pub open spec fn writes_left(backlog: Seq<u8>) -> nat
    decreases backlog.len(),
{
    if backlog.len() == 0 {
        1
    } else {
        1 + writes_left(behind_first_chunk(backlog))
    }
}

/// The run `events` followed by `count` completed writes.
pub open spec fn after_writes(events: Seq<PumpEventView>, count: nat) -> Seq<PumpEventView>
    decreases count,
{
    if count == 0 {
        events
    } else {
        after_writes(events.push(PumpEventView::Written), (count - 1) as nat)
    }
}

/// A backlog drains: a pump that is writing, and whose writes succeed, hands
/// out its whole backlog chunk by chunk and then reads again, with
/// everything that it has received delivered.
pub proof fn lemma_backlog_drains(events: Seq<PumpEventView>)
    requires
        phase_after(events) == Some(PumpPhase::AwaitingWrite),
    ensures
        phase_after(after_writes(events, writes_left(backlog_after(events)))) == Some(
            PumpPhase::AwaitingRead,
        ),
        bytes_received(after_writes(events, writes_left(backlog_after(events))))
            == bytes_received(events),
        bytes_delivered(after_writes(events, writes_left(backlog_after(events))))
            == bytes_received(events),
    decreases backlog_after(events).len(),
{
    let written = events.push(PumpEventView::Written);
    lemma_run_extended(events, PumpEventView::Written);
    assert(bytes_received(events) + Seq::<u8>::empty() == bytes_received(events));
    if backlog_after(events).len() == 0 {
        assert(after_writes(events, 1) == after_writes(written, 0));
        lemma_delivers_what_it_receives(written);
    } else {
        lemma_backlog_drains(written);
    }
}

/// A read of any length arrives whole: where a pump that awaits its read is
/// given `data`, however long, and its writes succeed, it delivers all of
/// `data` behind what it had delivered before, in chunks of at most
/// `CHUNK_SIZE` bytes, and then reads again.
pub proof fn lemma_any_read_arrives_whole(events: Seq<PumpEventView>, data: Seq<u8>)
    requires
        phase_after(events) == Some(PumpPhase::AwaitingRead),
        data.len() > 0,
    ensures
        phase_after(
            after_writes(
                events.push(PumpEventView::Received(data)),
                writes_left(behind_first_chunk(data)),
            ),
        ) == Some(PumpPhase::AwaitingRead),
        bytes_delivered(
            after_writes(
                events.push(PumpEventView::Received(data)),
                writes_left(behind_first_chunk(data)),
            ),
        ) == bytes_delivered(events) + data,
{
    lemma_run_extended(events, PumpEventView::Received(data));
    lemma_delivers_what_it_receives(events);
    lemma_backlog_drains(events.push(PumpEventView::Received(data)));
}

/// The number of events that a pump can still take once its source has
/// ended: none when it is finished, the one that ends its read when it
/// awaits a read, and otherwise the writes that drain it and then that one.
pub open spec fn events_left(step: PumpStep) -> nat {
    match step.phase {
        PumpPhase::Finished(_) => 0,
        PumpPhase::AwaitingRead => 1,
        PumpPhase::AwaitingWrite => writes_left(step.backlog) + 1,
    }
}

/// Failure propagation in bounded time. Once the source has ended, every
/// read finds an end of stream or fails. From then on each event that the
/// pump takes brings it strictly closer to its end: the count of events
/// left goes down with every one of them, and the pump is finished when it
/// has reached zero. A pump that awaits its read is thus finished by the
/// very next event, and a pump that is writing after the writes that drain
/// it and one more event.
pub proof fn lemma_ended_source_ends_pump(events: Seq<PumpEventView>, event: PumpEventView)
    requires
        step_after(events.push(event)) is Some,
        event is Received ==> event.ends_source(),
    ensures
        step_after(events) is Some,
        events_left(step_after(events.push(event))->Some_0) < events_left(
            step_after(events)->Some_0,
        ),
        events_left(step_after(events.push(event))->Some_0) == 0 <==> phase_after(
            events.push(event),
        )->Some_0 is Finished,
{
    lemma_run_extended(events, event);
}

/// A run stops only by closing the destination: where a run has led the
/// pump into a finished phase, its last answer was to shut down the write
/// side of the destination.
pub proof fn lemma_finished_run_closed_destination(events: Seq<PumpEventView>)
    requires
        phase_after(events) matches Some(phase) && phase is Finished,
    ensures
        events.len() > 0,
        step_after(events)->Some_0.action.closes_destination(),
{
    lemma_run_shape(events);
}

/// A finished pump takes no further event: every longer run is out of turn.
pub proof fn lemma_finished_is_final(events: Seq<PumpEventView>, event: PumpEventView)
    requires
        phase_after(events) matches Some(phase) && phase is Finished,
    ensures
        step_after(events.push(event)) is None,
{
    lemma_run_extended(events, event);
}

} // verus!
