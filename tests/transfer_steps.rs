use mod_syncer::transfer::{
    rate, TransferAction, TransferError, TransferEvent, TransferPhase, TransferSession,
};

fn started(content_length: Option<u64>) -> (TransferSession, Vec<TransferAction>) {
    let mut s = TransferSession::new();
    let acts = s.step(TransferEvent::Response { status: 200, content_length, now_ms: 1000 });
    assert_eq!(s.phase, TransferPhase::Creating);
    assert!(!s.file_exists);
    assert!(s.step(TransferEvent::FileCreated).is_empty());
    (s, acts)
}

#[test]
fn success_creates_file_and_announces_size() {
    let (s, acts) = started(Some(4096));
    assert_eq!(acts, vec![TransferAction::CreateFile, TransferAction::Announce { size: 4096 }]);
    assert_eq!(s.phase, TransferPhase::Streaming);
    assert!(s.file_exists);
    assert_eq!(s.expected_size, 4096);
}

#[test]
fn unknown_length_is_announced_as_largest_size() {
    let (s, acts) = started(None);
    assert_eq!(acts[1], TransferAction::Announce { size: u64::MAX });
    assert_eq!(s.expected_size, u64::MAX);
}

#[test]
fn error_status_fails_without_a_file() {
    let mut s = TransferSession::new();
    let acts = s.step(TransferEvent::Response { status: 404, content_length: Some(3), now_ms: 0 });
    assert!(acts.is_empty());
    assert_eq!(s.phase, TransferPhase::Failed(TransferError::Status(404)));
    assert!(!s.file_exists);
    assert!(s.finished());
}

#[test]
fn request_failure_is_a_network_error() {
    let mut s = TransferSession::new();
    assert!(s.step(TransferEvent::RequestFailed).is_empty());
    assert_eq!(s.phase, TransferPhase::Failed(TransferError::Network));
}

#[test]
fn chunks_are_written_and_reported() {
    let (mut s, _) = started(Some(10));
    let acts = s.step(TransferEvent::Chunk { len: 4, now_ms: 1100 });
    assert_eq!(acts, vec![TransferAction::Write { len: 4 }, TransferAction::Progress { bytes: 4 }]);
    assert_eq!(s.bytes_written, 4);
    assert_eq!(s.window_bytes, 4);
    let acts = s.step(TransferEvent::StreamEnd);
    assert_eq!(acts, vec![TransferAction::Finish]);
    assert_eq!(s.phase, TransferPhase::Completed);
    assert!(s.file_exists);
}

#[test]
fn speed_is_sampled_after_half_a_second() {
    let (mut s, _) = started(None);
    s.step(TransferEvent::Chunk { len: 400, now_ms: 1200 });
    let acts = s.step(TransferEvent::Chunk { len: 600, now_ms: 1500 });
    assert_eq!(
        acts,
        vec![
            TransferAction::Speed { bytes_per_second: 2000 },
            TransferAction::Write { len: 600 },
            TransferAction::Progress { bytes: 600 },
        ]
    );
    assert_eq!(s.window_bytes, 0);
    assert_eq!(s.window_start_ms, 1500);
    s.step(TransferEvent::Chunk { len: 500, now_ms: 1700 });
    let acts = s.step(TransferEvent::Chunk { len: 500, now_ms: 2000 });
    assert_eq!(acts.len(), 2, "an unchanged speed is not reported again");
    assert_eq!(s.last_rate, 2000);
}

#[test]
fn cancelling_mid_stream_discards_the_partial_file() {
    let (mut s, _) = started(Some(100));
    s.step(TransferEvent::Chunk { len: 10, now_ms: 1001 });
    let acts = s.step(TransferEvent::Cancelled);
    assert_eq!(acts, vec![TransferAction::Discard]);
    assert_eq!(s.phase, TransferPhase::Cancelled);
    assert!(!s.file_exists);
    assert!(s.step(TransferEvent::Chunk { len: 10, now_ms: 1002 }).is_empty());
}

#[test]
fn cancelling_before_the_answer_leaves_nothing() {
    let mut s = TransferSession::new();
    assert!(s.step(TransferEvent::Cancelled).is_empty());
    assert_eq!(s.phase, TransferPhase::Cancelled);
    assert!(!s.file_exists);
}

#[test]
fn write_and_read_failures_discard_the_file() {
    let (mut s, _) = started(Some(100));
    assert_eq!(s.step(TransferEvent::WriteFailed), vec![TransferAction::Discard]);
    assert_eq!(s.phase, TransferPhase::Failed(TransferError::Io));
    let (mut t, _) = started(Some(100));
    assert_eq!(t.step(TransferEvent::ChunkFailed), vec![TransferAction::Discard]);
    assert_eq!(t.phase, TransferPhase::Failed(TransferError::Network));
}

#[test]
fn failed_creation_removes_nothing() {
    let mut s = TransferSession::new();
    s.step(TransferEvent::Response { status: 200, content_length: Some(3), now_ms: 0 });
    assert!(s.step(TransferEvent::CreateFailed).is_empty());
    assert_eq!(s.phase, TransferPhase::Failed(TransferError::Io));
    assert!(!s.file_exists);
}

#[test]
fn cancelling_while_creating_leaves_nothing() {
    let mut s = TransferSession::new();
    s.step(TransferEvent::Response { status: 200, content_length: Some(3), now_ms: 0 });
    assert!(s.step(TransferEvent::Cancelled).is_empty());
    assert_eq!(s.phase, TransferPhase::Cancelled);
    assert!(!s.file_exists);
}

#[test]
fn rate_values() {
    assert_eq!(rate(1000, 500), 2000);
    assert_eq!(rate(1, 3), 333);
    assert_eq!(rate(u64::MAX, 1), u64::MAX);
}
