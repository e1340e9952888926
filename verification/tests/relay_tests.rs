use orbital_relay::gameplay::Team;
use orbital_relay::relay::{
    OutOfTurn, PumpAction, PumpEvent, PumpExit, PumpPhase, RelayPump, CHUNK_SIZE,
};
use orbital_relay::session::{AssignmentResult, ConnectionId, Session, SessionManager};

/// Plays the part of the sockets: the source holds `sent`, every read takes
/// at most `read_limit` bytes of it, and every write succeeds. Returns what
/// reached the destination, the sizes of the chunks, and the last action.
fn relay_all(sent: &[u8], read_limit: usize) -> (Vec<u8>, Vec<usize>, PumpAction) {
    let (mut pump, mut action) = RelayPump::start(Team::A);
    let mut offset = 0usize;
    let mut arrived: Vec<u8> = Vec::new();
    let mut chunks: Vec<usize> = Vec::new();
    loop {
        let event = match &action {
            PumpAction::Read { max } => {
                let mut buffer = vec![0u8; *max];
                let count = (sent.len() - offset).min(*max).min(read_limit);
                buffer[..count].copy_from_slice(&sent[offset..offset + count]);
                offset += count;
                PumpEvent::from_read(&buffer, count)
            }
            PumpAction::Forward(bytes) => {
                arrived.extend_from_slice(bytes);
                chunks.push(bytes.len());
                PumpEvent::Written
            }
            PumpAction::HalfClose | PumpAction::Abort => return (arrived, chunks, action),
        };
        action = pump.step(event).unwrap();
    }
}

#[test]
fn chunk_size_is_1024() {
    assert_eq!(CHUNK_SIZE, 1024);
}

#[test]
fn pump_starts_with_a_read_of_one_chunk() {
    let (pump, action) = RelayPump::start(Team::A);
    assert_eq!(action, PumpAction::Read { max: 1024 });
    assert_eq!(pump.phase(), PumpPhase::AwaitingRead);
    assert_eq!(pump.source(), Team::A);
    assert_eq!(pump.destination(), Team::B);
    assert!(!pump.is_finished());
    let (pump, _) = RelayPump::start(Team::B);
    assert_eq!(pump.source(), Team::B);
    assert_eq!(pump.destination(), Team::A);
}

#[test]
fn from_read_takes_the_filled_part_of_the_buffer() {
    let buffer = [9u8, 8, 7, 6, 5];
    assert_eq!(PumpEvent::from_read(&buffer, 3), PumpEvent::Received(vec![9, 8, 7]));
    assert_eq!(PumpEvent::from_read(&buffer, 5), PumpEvent::Received(vec![9, 8, 7, 6, 5]));
    assert_eq!(PumpEvent::from_read(&buffer, 0), PumpEvent::Received(vec![]));
    assert_eq!(PumpEvent::from_read(&[], 0), PumpEvent::Received(vec![]));
}

#[test]
fn three_bytes_are_forwarded_as_they_came() {
    let (mut pump, _) = RelayPump::start(Team::A);
    let action = pump.step(PumpEvent::Received(vec![0x01, 0x02, 0x03])).unwrap();
    assert_eq!(action, PumpAction::Forward(vec![0x01, 0x02, 0x03]));
    assert_eq!(pump.phase(), PumpPhase::AwaitingWrite);
    let action = pump.step(PumpEvent::Written).unwrap();
    assert_eq!(action, PumpAction::Read { max: 1024 });
    assert_eq!(pump.phase(), PumpPhase::AwaitingRead);
}

#[test]
fn paired_players_exchange_bytes_in_both_directions() {
    let mut manager = SessionManager::new();
    let x = ConnectionId(1);
    let y = ConnectionId(2);
    assert_eq!(manager.assign(x), Ok(AssignmentResult::AssignedAsA));
    assert_eq!(manager.assign(y), Ok(AssignmentResult::AssignedAsB(x)));
    let (mut a_to_b, _) = RelayPump::start(Team::A);
    let (mut b_to_a, _) = RelayPump::start(Team::B);
    assert_eq!(
        a_to_b.step(PumpEvent::Received(vec![0x01, 0x02, 0x03])),
        Ok(PumpAction::Forward(vec![0x01, 0x02, 0x03]))
    );
    assert_eq!(
        b_to_a.step(PumpEvent::Received(vec![0xAA, 0xBB])),
        Ok(PumpAction::Forward(vec![0xAA, 0xBB]))
    );
    assert_eq!(a_to_b.step(PumpEvent::Written), Ok(PumpAction::Read { max: 1024 }));
    assert_eq!(b_to_a.step(PumpEvent::Written), Ok(PumpAction::Read { max: 1024 }));
}

#[test]
fn two_thousand_bytes_arrive_whole_and_in_order() {
    let sent: Vec<u8> = (0..2000u32).map(|i| (i % 251) as u8).collect();
    let (arrived, chunks, last) = relay_all(&sent, usize::MAX);
    assert_eq!(arrived, sent);
    assert_eq!(chunks, vec![1024, 976]);
    assert_eq!(last, PumpAction::HalfClose);
}

#[test]
fn stream_is_the_same_however_the_reads_cut_it() {
    let sent: Vec<u8> = (0..3000u32).map(|i| (i * 7 % 256) as u8).collect();
    for read_limit in [1usize, 2, 3, 100, 1023, 1024, 1025, 4096] {
        let (arrived, chunks, last) = relay_all(&sent, read_limit);
        assert_eq!(arrived, sent);
        assert!(chunks.iter().all(|&n| 0 < n && n <= 1024 && n <= read_limit));
        assert_eq!(chunks.iter().sum::<usize>(), 3000);
        assert_eq!(last, PumpAction::HalfClose);
    }
}

#[test]
fn empty_stream_relays_nothing() {
    let (arrived, chunks, last) = relay_all(&[], usize::MAX);
    assert!(arrived.is_empty());
    assert!(chunks.is_empty());
    assert_eq!(last, PumpAction::HalfClose);
}

#[test]
fn read_longer_than_a_chunk_is_cut_into_chunks() {
    let (mut pump, _) = RelayPump::start(Team::A);
    let big: Vec<u8> = (0..5000u32).map(|i| (i % 253) as u8).collect();
    let mut arrived: Vec<u8> = Vec::new();
    let mut sizes: Vec<usize> = Vec::new();
    let mut action = pump.step(PumpEvent::Received(big.clone())).unwrap();
    loop {
        match action {
            PumpAction::Forward(chunk) => {
                sizes.push(chunk.len());
                arrived.extend_from_slice(&chunk);
                assert_eq!(pump.backlog_len(), 5000 - arrived.len());
                action = pump.step(PumpEvent::Written).unwrap();
            }
            other => {
                assert_eq!(other, PumpAction::Read { max: 1024 });
                break;
            }
        }
    }
    assert_eq!(sizes, vec![1024, 1024, 1024, 1024, 904]);
    assert_eq!(arrived, big);
    assert_eq!(pump.backlog_len(), 0);
    assert_eq!(pump.phase(), PumpPhase::AwaitingRead);
}

#[test]
fn read_of_exactly_one_chunk_is_forwarded_in_one_write() {
    let (mut pump, _) = RelayPump::start(Team::A);
    let data = vec![7u8; 1024];
    assert_eq!(pump.step(PumpEvent::Received(data.clone())), Ok(PumpAction::Forward(data)));
    assert_eq!(pump.backlog_len(), 0);
    assert_eq!(pump.step(PumpEvent::Written), Ok(PumpAction::Read { max: 1024 }));
}

#[test]
fn read_of_one_byte_more_than_a_chunk_takes_two_writes() {
    let (mut pump, _) = RelayPump::start(Team::A);
    let mut data = vec![7u8; 1024];
    data.push(8);
    assert_eq!(pump.step(PumpEvent::Received(data)), Ok(PumpAction::Forward(vec![7u8; 1024])));
    assert_eq!(pump.backlog_len(), 1);
    assert_eq!(pump.step(PumpEvent::Written), Ok(PumpAction::Forward(vec![8])));
    assert_eq!(pump.step(PumpEvent::Written), Ok(PumpAction::Read { max: 1024 }));
}

#[test]
fn no_write_is_longer_than_a_chunk_whatever_the_reads_return() {
    let sent: Vec<u8> = (0..10000u32).map(|i| (i * 31 % 256) as u8).collect();
    for read_size in [1usize, 1000, 1024, 1025, 2048, 3000, 10000] {
        let (mut pump, mut action) = RelayPump::start(Team::B);
        let mut offset = 0usize;
        let mut arrived: Vec<u8> = Vec::new();
        loop {
            let event = match &action {
                PumpAction::Read { .. } => {
                    let count = (sent.len() - offset).min(read_size);
                    offset += count;
                    PumpEvent::Received(sent[offset - count..offset].to_vec())
                }
                PumpAction::Forward(bytes) => {
                    assert!(1 <= bytes.len() && bytes.len() <= 1024);
                    arrived.extend_from_slice(bytes);
                    PumpEvent::Written
                }
                PumpAction::HalfClose | PumpAction::Abort => break,
            };
            action = pump.step(event).unwrap();
        }
        assert_eq!(action, PumpAction::HalfClose);
        assert_eq!(arrived, sent);
    }
}

#[test]
fn write_failure_keeps_the_backlog_unsent() {
    let (mut pump, _) = RelayPump::start(Team::A);
    pump.step(PumpEvent::Received(vec![1u8; 3000])).unwrap();
    assert_eq!(pump.backlog_len(), 3000 - 1024);
    assert_eq!(pump.step(PumpEvent::WriteFailed), Ok(PumpAction::Abort));
    assert!(pump.is_finished());
    assert_eq!(pump.step(PumpEvent::Written).is_err(), true);
}

#[test]
fn end_of_source_half_closes_the_destination() {
    let (mut pump, _) = RelayPump::start(Team::B);
    assert_eq!(pump.step(PumpEvent::Received(vec![])), Ok(PumpAction::HalfClose));
    assert_eq!(pump.phase(), PumpPhase::Finished(PumpExit::SourceClosed));
    assert!(pump.is_finished());
}

#[test]
fn failed_read_aborts() {
    let (mut pump, _) = RelayPump::start(Team::A);
    assert_eq!(pump.step(PumpEvent::ReadFailed), Ok(PumpAction::Abort));
    assert_eq!(pump.phase(), PumpPhase::Finished(PumpExit::ReadFailed));
    assert!(pump.is_finished());
}

#[test]
fn failed_write_aborts_and_stops_reading() {
    let (mut pump, _) = RelayPump::start(Team::A);
    pump.step(PumpEvent::Received(vec![1])).unwrap();
    assert_eq!(pump.step(PumpEvent::WriteFailed), Ok(PumpAction::Abort));
    assert_eq!(pump.phase(), PumpPhase::Finished(PumpExit::WriteFailed));
    assert_eq!(
        pump.step(PumpEvent::Received(vec![2])),
        Err(OutOfTurn { phase: PumpPhase::Finished(PumpExit::WriteFailed) })
    );
}

#[test]
fn finished_pump_takes_no_event() {
    let (mut pump, _) = RelayPump::start(Team::A);
    pump.step(PumpEvent::Received(vec![])).unwrap();
    let done = PumpPhase::Finished(PumpExit::SourceClosed);
    assert_eq!(pump.step(PumpEvent::Received(vec![1])), Err(OutOfTurn { phase: done }));
    assert_eq!(pump.step(PumpEvent::ReadFailed), Err(OutOfTurn { phase: done }));
    assert_eq!(pump.step(PumpEvent::Written), Err(OutOfTurn { phase: done }));
    assert_eq!(pump.step(PumpEvent::WriteFailed), Err(OutOfTurn { phase: done }));
    assert_eq!(pump.phase(), done);
}

#[test]
fn event_out_of_turn_is_ignored() {
    let (mut pump, _) = RelayPump::start(Team::A);
    let reading = OutOfTurn { phase: PumpPhase::AwaitingRead };
    assert_eq!(pump.step(PumpEvent::Written), Err(reading));
    assert_eq!(pump.step(PumpEvent::WriteFailed), Err(reading));
    assert_eq!(pump.phase(), PumpPhase::AwaitingRead);
    pump.step(PumpEvent::Received(vec![1, 2])).unwrap();
    let writing = OutOfTurn { phase: PumpPhase::AwaitingWrite };
    assert_eq!(pump.step(PumpEvent::Received(vec![3])), Err(writing));
    assert_eq!(pump.step(PumpEvent::ReadFailed), Err(writing));
    assert_eq!(pump.phase(), PumpPhase::AwaitingWrite);
    assert_eq!(pump.step(PumpEvent::Written), Ok(PumpAction::Read { max: 1024 }));
}

#[test]
fn closing_one_player_ends_the_session_for_both() {
    let mut manager = SessionManager::new();
    manager.assign(ConnectionId(1)).unwrap();
    manager.assign(ConnectionId(2)).unwrap();
    let (mut a_to_b, _) = RelayPump::start(Team::A);
    let (mut b_to_a, _) = RelayPump::start(Team::B);
    // Player B closes: the pump that reads from B sees the end of stream and
    // half-closes player A's connection.
    assert_eq!(b_to_a.step(PumpEvent::Received(vec![])), Ok(PumpAction::HalfClose));
    assert_eq!(b_to_a.destination(), Team::A);
    assert!(!manager.pump_finished(b_to_a.source()));
    assert!(manager.is_paired());
    // Player A, having read the end of stream, closes too.
    assert_eq!(a_to_b.step(PumpEvent::Received(vec![])), Ok(PumpAction::HalfClose));
    assert!(manager.pump_finished(a_to_b.source()));
    assert_eq!(manager.session(), Session::Open);
}

#[test]
fn failure_on_one_side_ends_both_pumps() {
    let mut manager = SessionManager::new();
    manager.assign(ConnectionId(1)).unwrap();
    manager.assign(ConnectionId(2)).unwrap();
    let (mut a_to_b, _) = RelayPump::start(Team::A);
    let (mut b_to_a, _) = RelayPump::start(Team::B);
    // The read from player A fails: both connections are shut down.
    assert_eq!(a_to_b.step(PumpEvent::ReadFailed), Ok(PumpAction::Abort));
    assert!(!manager.pump_finished(a_to_b.source()));
    // The opposite pump, blocked in its read, now finds the end of stream.
    assert_eq!(b_to_a.step(PumpEvent::from_read(&[0u8; 16], 0)), Ok(PumpAction::HalfClose));
    assert!(manager.pump_finished(b_to_a.source()));
    assert_eq!(manager.session(), Session::Open);
    assert_eq!(manager.assign(ConnectionId(3)), Ok(AssignmentResult::AssignedAsA));
}

#[test]
fn write_failure_in_the_middle_of_a_stream_stops_the_pump() {
    let (mut pump, _) = RelayPump::start(Team::B);
    assert_eq!(pump.step(PumpEvent::Received(vec![1, 2])), Ok(PumpAction::Forward(vec![1, 2])));
    assert_eq!(pump.step(PumpEvent::Written), Ok(PumpAction::Read { max: CHUNK_SIZE }));
    assert_eq!(pump.step(PumpEvent::Received(vec![3])), Ok(PumpAction::Forward(vec![3])));
    assert_eq!(pump.step(PumpEvent::WriteFailed), Ok(PumpAction::Abort));
    assert!(pump.is_finished());
    assert_eq!(pump.step(PumpEvent::Written).is_err(), true);
}
