use msg_logger::batch::{flush_outcome, FlushOutcome, WriteBuffer};
use msg_logger::ingest::{prepare_write, InboundMessage, PendingWrite};
use msg_logger::limits::WRITE_BATCH_THRESHOLD;

fn unit(n: i64) -> PendingWrite {
    let ev = InboundMessage {
        message_id: n,
        user_id: 1,
        group_id: None,
        message_type: "private".to_string(),
        sub_type: "friend".to_string(),
        raw_json: "{}".to_string(),
        text: Some(format!("m{}", n)),
        nickname: None,
        card: None,
        role: None,
        time: n,
    };
    prepare_write(&ev, 0, 0, &vec![])
}

#[test]
fn threshold_triggers_flush() {
    let mut buf = WriteBuffer::new();
    assert!(!buf.on_tick());
    assert!(!buf.on_close());
    for n in 0..(WRITE_BATCH_THRESHOLD as i64 - 1) {
        assert!(!buf.on_unit(unit(n)));
    }
    assert!(buf.on_tick());
    assert!(buf.on_unit(unit(999)));
    assert_eq!(buf.len(), WRITE_BATCH_THRESHOLD);
    assert_eq!(buf.units()[0].message.message_id, 0);
    assert_eq!(buf.units()[WRITE_BATCH_THRESHOLD - 1].message.message_id, 999);
}

#[test]
fn commit_clears_buffer() {
    let mut buf = WriteBuffer::new();
    buf.on_unit(unit(1));
    buf.on_unit(unit(2));
    buf.settle(FlushOutcome::Committed);
    assert_eq!(buf.len(), 0);
    assert!(!buf.on_close());
}

#[test]
fn begin_or_commit_failure_keeps_everything() {
    let mut buf = WriteBuffer::new();
    for n in 0..120 {
        buf.on_unit(unit(n));
    }
    buf.settle(FlushOutcome::BeginFailed);
    assert_eq!(buf.len(), 120);
    buf.settle(FlushOutcome::CommitFailed);
    assert_eq!(buf.len(), 120);
}

#[test]
fn step_failure_drops_oldest_batch_when_oversized() {
    let mut buf = WriteBuffer::new();
    for n in 0..120 {
        buf.on_unit(unit(n));
    }
    buf.settle(FlushOutcome::StepFailed);
    assert_eq!(buf.len(), 70);
    assert_eq!(buf.units()[0].message.message_id, 50);
    let mut small = WriteBuffer::new();
    for n in 0..30 {
        small.on_unit(unit(n));
    }
    small.settle(FlushOutcome::StepFailed);
    assert_eq!(small.len(), 30);
}

#[test]
fn any_failed_unit_prevents_commit() {
    assert_eq!(flush_outcome(false, &vec![true], true), FlushOutcome::BeginFailed);
    assert_eq!(flush_outcome(true, &vec![true, false, true], true), FlushOutcome::StepFailed);
    assert_eq!(flush_outcome(true, &vec![true, true], false), FlushOutcome::CommitFailed);
    assert_eq!(flush_outcome(true, &vec![true, true], true), FlushOutcome::Committed);
    assert_eq!(flush_outcome(true, &vec![], true), FlushOutcome::Committed);
}
