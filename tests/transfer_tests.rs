use nearbysend::chunking::{FileAssembler, FileChunker, DEFAULT_CHUNK_SIZE};
use nearbysend::message::TransferMessage;
use nearbysend::receiver::{ReceiveAction, ReceivePhase, ReceiveSession};
use nearbysend::registry::{get_transfers, update_transfer_progress, update_transfer_status, Transfer};
use nearbysend::sender::{SendPhase, SendSession, CHUNK_SIZE};
use nearbysend::{Error, FileTransfer, ProtocolViolation, TransferStatus};

/// Runs a whole transfer of `source` between a sender and a receiver that
/// hand each other messages directly. Returns the bytes written and the
/// chunks seen.
fn run_transfer(source: &[u8], declared: u64) -> (SendSession, ReceiveSession, Vec<u8>, Vec<u32>, bool) {
    let mut sender = SendSession::new("t-1".to_string(), "photo.jpg".to_string(), declared);
    let request = sender.request().unwrap();
    let mut receiver = ReceiveSession::from_request(request).unwrap();
    assert_eq!(receiver.transfer().status, TransferStatus::Pending);
    let response = receiver.respond().unwrap();
    sender.on_response(&response).unwrap();
    let mut written = Vec::new();
    let mut chunk_indices = Vec::new();
    let mut completion_sent = false;
    let mut offset = 0usize;
    loop {
        let want = sender.read_len() as usize;
        let end = std::cmp::min(offset + want, source.len());
        let data = source[offset..end].to_vec();
        offset = end;
        let chunk = sender.send_chunk(data).unwrap();
        if let TransferMessage::DataChunk { chunk_index, .. } = &chunk {
            chunk_indices.push(*chunk_index);
        }
        let ack = match receiver.on_message(chunk) {
            Ok(ReceiveAction::Write { data, ack }) => {
                written.extend_from_slice(&data);
                ack
            }
            _ => break,
        };
        match sender.on_ack(&ack) {
            Ok(None) => {}
            Ok(Some(complete)) => {
                completion_sent = matches!(complete, TransferMessage::TransferComplete { success: true, .. });
                assert!(matches!(receiver.on_message(complete), Ok(ReceiveAction::Finished)));
                break;
            }
            Err(_) => break,
        }
    }
    (sender, receiver, written, chunk_indices, completion_sent)
}

#[test]
fn happy_path_200_kib_in_four_chunks() {
    let source: Vec<u8> = (0..200 * 1024).map(|i| (i % 251) as u8).collect();
    let (sender, receiver, written, chunks, completed) = run_transfer(&source, source.len() as u64);
    assert_eq!(chunks, vec![0, 1, 2, 3]);
    assert!(completed);
    assert_eq!(written, source);
    assert_eq!(sender.phase(), SendPhase::Completed);
    assert_eq!(receiver.phase(), ReceivePhase::Completed);
    assert_eq!(sender.transfer().status, TransferStatus::Completed);
    assert_eq!(receiver.transfer().status, TransferStatus::Completed);
    assert_eq!(receiver.transfer().transferred_bytes, 204800);
}

#[test]
fn empty_file_moves_as_one_empty_last_chunk() {
    let (sender, receiver, written, chunks, completed) = run_transfer(&[], 0);
    assert_eq!(chunks, vec![0]);
    assert!(completed);
    assert!(written.is_empty());
    assert_eq!(sender.phase(), SendPhase::Completed);
    assert_eq!(receiver.phase(), ReceivePhase::Completed);
}

#[test]
fn exact_multiple_of_chunk_size() {
    let source = vec![9u8; 2 * CHUNK_SIZE as usize];
    let (_, receiver, written, chunks, completed) = run_transfer(&source, source.len() as u64);
    assert_eq!(chunks, vec![0, 1]);
    assert!(completed);
    assert_eq!(written.len(), 131072);
    assert_eq!(receiver.phase(), ReceivePhase::Completed);
}

#[test]
fn sender_file_shorter_than_declared_fails() {
    let source = vec![1u8; 1000];
    let (sender, receiver, written, chunks, completed) = run_transfer(&source, 5000);
    assert_eq!(chunks, vec![0]);
    assert!(!completed);
    assert!(written.is_empty());
    assert_eq!(sender.phase(), SendPhase::AwaitAck { len: 1000, is_last: true });
    assert_eq!(receiver.phase(), ReceivePhase::Failed);
    assert_eq!(receiver.transfer().status, TransferStatus::Failed);
}

#[test]
fn sender_fails_when_acked_total_differs_from_size() {
    let mut s = SendSession::new("t".to_string(), "f".to_string(), 10);
    s.request().unwrap();
    s.on_response(&TransferMessage::TransferResponse { id: "t".to_string(), accepted: true }).unwrap();
    assert_eq!(s.read_len(), 10);
    let chunk = s.send_chunk(vec![1, 2, 3]).unwrap();
    assert!(matches!(chunk, TransferMessage::DataChunk { is_last: true, chunk_index: 0, .. }));
    let r = s.on_ack(&TransferMessage::ChunkAck { id: "t".to_string(), chunk_index: 0 });
    assert_eq!(r.unwrap_err(), ProtocolViolation::SizeMismatch { expected: 10, got: 3 });
    assert_eq!(s.transfer().status, TransferStatus::Failed);
}

#[test]
fn rejected_request_fails_and_sends_no_chunk() {
    let mut s = SendSession::new("t".to_string(), "f".to_string(), 100);
    assert!(matches!(s.request().unwrap(), TransferMessage::TransferRequest { file_size: 100, .. }));
    assert_eq!(s.transfer().status, TransferStatus::Connecting);
    let r = s.on_response(&TransferMessage::TransferResponse { id: "t".to_string(), accepted: false });
    assert_eq!(r.unwrap_err(), ProtocolViolation::Rejected);
    assert_eq!(s.transfer().status, TransferStatus::Failed);
    assert_eq!(s.send_chunk(vec![0u8; 100]).unwrap_err(), ProtocolViolation::WrongPhase);
    assert_eq!(s.phase(), SendPhase::Failed);
}

#[test]
fn response_for_another_transfer_fails_sender() {
    let mut s = SendSession::new("t".to_string(), "f".to_string(), 100);
    s.request().unwrap();
    let r = s.on_response(&TransferMessage::TransferResponse { id: "other".to_string(), accepted: true });
    assert_eq!(r.unwrap_err(), ProtocolViolation::UnexpectedMessage);
    assert_eq!(s.phase(), SendPhase::Failed);
}

#[test]
fn mismatched_ack_fails_sender() {
    let mut s = SendSession::new("t".to_string(), "f".to_string(), 100000);
    s.request().unwrap();
    s.on_response(&TransferMessage::TransferResponse { id: "t".to_string(), accepted: true }).unwrap();
    s.send_chunk(vec![0u8; 65536]).unwrap();
    let r = s.on_ack(&TransferMessage::ChunkAck { id: "t".to_string(), chunk_index: 1 });
    assert_eq!(r.unwrap_err(), ProtocolViolation::UnexpectedMessage);
    assert_eq!(s.transferred(), 0);
    assert_eq!(s.phase(), SendPhase::Failed);
}

#[test]
fn fresh_transfer_ids_are_hyphenated_uuids() {
    let a = SendSession::open("f".to_string(), 1).transfer();
    let b = SendSession::open("f".to_string(), 1).transfer();
    assert_eq!(a.id.len(), 36);
    assert_eq!(a.id.matches('-').count(), 4);
    assert_ne!(a.id, b.id);
    assert_eq!(a.status, TransferStatus::Pending);
}

fn accepted_receiver(size: u64) -> ReceiveSession {
    let req = TransferMessage::TransferRequest { id: "r".to_string(), file_name: "a.txt".to_string(), file_size: size };
    let mut r = ReceiveSession::from_request(req).unwrap();
    assert!(matches!(r.respond().unwrap(), TransferMessage::TransferResponse { accepted: true, .. }));
    r
}

fn chunk(index: u32, data: Vec<u8>, is_last: bool) -> TransferMessage {
    TransferMessage::DataChunk { id: "r".to_string(), chunk_index: index, data, is_last }
}

#[test]
fn out_of_order_chunk_fails_and_writes_nothing() {
    let mut r = accepted_receiver(1000);
    for i in 0..3u32 {
        assert!(matches!(r.on_message(chunk(i, vec![0u8; 10], false)), Ok(ReceiveAction::Write { .. })));
    }
    assert_eq!(r.received(), 30);
    let out = r.on_message(chunk(5, vec![0u8; 10], false));
    assert_eq!(out.unwrap_err(), ProtocolViolation::ChunkIndexMismatch { expected: 3, got: 5 });
    assert_eq!(r.received(), 30);
    assert_eq!(r.transfer().status, TransferStatus::Failed);
}

#[test]
fn short_last_chunk_fails_receiver() {
    let mut r = accepted_receiver(100);
    r.on_message(chunk(0, vec![0u8; 40], false)).unwrap();
    let out = r.on_message(chunk(1, vec![0u8; 40], true));
    assert_eq!(out.unwrap_err(), ProtocolViolation::SizeMismatch { expected: 100, got: 80 });
    assert_eq!(r.phase(), ReceivePhase::Failed);
}

#[test]
fn overrunning_chunk_fails_receiver() {
    let mut r = accepted_receiver(10);
    assert_eq!(r.on_message(chunk(0, vec![0u8; 11], false)).unwrap_err(), ProtocolViolation::ExceedsDeclaredSize);
    assert_eq!(r.received(), 0);
}

#[test]
fn completion_without_last_flag_is_accepted() {
    let mut r = accepted_receiver(20);
    r.on_message(chunk(0, vec![1u8; 20], false)).unwrap();
    let done = r.on_message(TransferMessage::TransferComplete { id: "r".to_string(), success: true });
    assert!(matches!(done, Ok(ReceiveAction::Finished)));
    assert_eq!(r.phase(), ReceivePhase::Completed);
}

#[test]
fn early_completion_fails_receiver() {
    let mut r = accepted_receiver(20);
    r.on_message(chunk(0, vec![1u8; 5], false)).unwrap();
    let done = r.on_message(TransferMessage::TransferComplete { id: "r".to_string(), success: true });
    assert_eq!(done.unwrap_err(), ProtocolViolation::SizeMismatch { expected: 20, got: 5 });
}

#[test]
fn sender_reported_failure_fails_receiver() {
    let mut r = accepted_receiver(20);
    let done = r.on_message(TransferMessage::TransferComplete { id: "r".to_string(), success: false });
    assert_eq!(done.unwrap_err(), ProtocolViolation::SenderFailed);
    assert_eq!(r.on_message(chunk(0, vec![], true)).unwrap_err(), ProtocolViolation::WrongPhase);
}

#[test]
fn foreign_message_fails_receiver() {
    let mut r = accepted_receiver(20);
    let out = r.on_message(TransferMessage::ChunkAck { id: "r".to_string(), chunk_index: 0 });
    assert_eq!(out.unwrap_err(), ProtocolViolation::UnexpectedMessage);
    let first = TransferMessage::ChunkAck { id: "r".to_string(), chunk_index: 0 };
    assert!(ReceiveSession::from_request(first).is_none());
}

#[test]
fn abort_fails_unfinished_transfer() {
    let mut r = accepted_receiver(20);
    r.abort();
    assert_eq!(r.phase(), ReceivePhase::Failed);
    let mut s = SendSession::new("t".to_string(), "f".to_string(), 1);
    s.abort();
    assert_eq!(s.phase(), SendPhase::Failed);
}

fn record(id: &str, size: u64) -> FileTransfer {
    FileTransfer {
        id: id.to_string(),
        file_name: "f".to_string(),
        file_size: size,
        transferred_bytes: 0,
        status: TransferStatus::Pending,
    }
}

#[test]
fn registry_progress_only_moves_forward() {
    let mut reg = Transfer::new().unwrap();
    reg.add_transfer(record("a", 100)).unwrap();
    reg.add_transfer(record("b", 50)).unwrap();
    assert!(matches!(reg.add_transfer(record("a", 1)), Err(Error::Protocol(ProtocolViolation::DuplicateTransferId))));
    update_transfer_progress(&mut reg, "a", 40).unwrap();
    update_transfer_progress(&mut reg, "a", 40).unwrap();
    assert!(matches!(
        update_transfer_progress(&mut reg, "a", 39),
        Err(Error::Protocol(ProtocolViolation::ProgressOutOfOrder))
    ));
    assert!(matches!(
        update_transfer_progress(&mut reg, "a", 101),
        Err(Error::Protocol(ProtocolViolation::ProgressOutOfOrder))
    ));
    update_transfer_progress(&mut reg, "a", 100).unwrap();
    let all = get_transfers(&reg).unwrap();
    assert_eq!(all.len(), 2);
    assert_eq!(all[0].transferred_bytes, 100);
    assert_eq!(all[1].transferred_bytes, 0);
}

#[test]
fn registry_status_only_moves_forward() {
    let mut reg = Transfer::new().unwrap();
    reg.add_transfer(record("a", 1)).unwrap();
    update_transfer_status(&mut reg, "a", TransferStatus::Connecting).unwrap();
    update_transfer_status(&mut reg, "a", TransferStatus::Transferring).unwrap();
    assert!(matches!(
        update_transfer_status(&mut reg, "a", TransferStatus::Pending),
        Err(Error::Protocol(ProtocolViolation::StatusRegression))
    ));
    update_transfer_status(&mut reg, "a", TransferStatus::Failed).unwrap();
    assert!(matches!(
        update_transfer_status(&mut reg, "a", TransferStatus::Completed),
        Err(Error::Protocol(ProtocolViolation::StatusRegression))
    ));
    assert_eq!(get_transfers(&reg).unwrap()[0].status, TransferStatus::Failed);
}

#[test]
fn registry_lookup_miss() {
    let mut reg = Transfer::new().unwrap();
    match update_transfer_status(&mut reg, "missing", TransferStatus::Failed) {
        Err(Error::TransferNotFound(id)) => assert_eq!(id, "missing"),
        other => panic!("unexpected {:?}", other),
    }
    assert!(matches!(update_transfer_progress(&mut reg, "missing", 0), Err(Error::TransferNotFound(_))));
}

#[test]
fn chunker_walks_file() {
    let mut c = FileChunker::new(150000, None);
    assert_eq!(c.next_chunk_len(), DEFAULT_CHUNK_SIZE);
    assert!(c.next_chunk(vec![]).is_none());
    assert_eq!(c.next_chunk(vec![0u8; 65536]).unwrap().len(), 65536);
    c.next_chunk(vec![0u8; 65536]).unwrap();
    assert_eq!(c.next_chunk_len(), 18928);
    c.next_chunk(vec![0u8; 18928]).unwrap();
    assert!(c.is_complete());
    assert_eq!(c.current_position(), 150000);
    assert_eq!(c.next_chunk_len(), 0);
    c.reset();
    assert_eq!(c.current_position(), 0);
    assert_eq!(FileChunker::new(10, Some(4)).next_chunk_len(), 4);
}

#[test]
fn assembler_checks_size() {
    let mut a = FileAssembler::new("/tmp/out.bin", 6);
    a.write_chunk(&[1, 2, 3]);
    assert!(!a.is_complete());
    assert!(matches!(
        FileAssembler::new("/tmp/x", 6).finish(),
        Err(Error::Protocol(ProtocolViolation::SizeMismatch { expected: 6, got: 0 }))
    ));
    a.write_chunk(&[4, 5, 6]);
    assert_eq!(a.current_size(), 6);
    assert_eq!(a.expected_size(), 6);
    assert_eq!(a.finish().unwrap(), "/tmp/out.bin");
}
