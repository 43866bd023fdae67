use shizuku::error::{DeserializeError, SerializeError};
use shizuku::kv::rw_lock::{
    DistroRwLock, DistroRwLockError, DistroRwLockMode, DistroRwLockValue, LockAction, LockAwaiting,
    LockEntry, LockEvent, LockOperation, LockTask,
};
use shizuku::kv::{CreateErrorKind, EntryErrorKind, KeyValue, KvReadError, KvWriteError, UpdateErrorKind};

fn value(mode: DistroRwLockMode, readers: u64, writer_waiting: bool, acquired_at: u64) -> DistroRwLockValue {
    DistroRwLockValue { mode, readers, writer_waiting, acquired_at }
}

fn entry(v: DistroRwLockValue, revision: u64) -> LockEvent {
    LockEvent::Read(Ok(Some(LockEntry { value: v, revision })))
}

/// Run a task on a sequence of events, returning every action it asked for.
fn run(op: LockOperation, events: Vec<LockEvent>, now: u64) -> Vec<LockAction> {
    let (mut task, first) = LockTask::begin(op);
    let mut actions = vec![first];
    for e in events {
        let (t, a) = task.step(e, now);
        task = t;
        actions.push(a);
    }
    actions
}

#[test]
fn new_lock_is_idle() {
    assert_eq!(DistroRwLockValue::new(), value(DistroRwLockMode::Idle, 0, false, 0));
    assert_eq!(DistroRwLockValue::default(), DistroRwLockValue::new());
    assert_eq!(DistroRwLockMode::default(), DistroRwLockMode::Idle);
}

#[test]
fn read_acquire_and_release() {
    let v = DistroRwLockValue::new().into_read_acquired_at(1000);
    assert_eq!(v, value(DistroRwLockMode::Read, 1, false, 1000));
    let v2 = v.into_read_acquired_at(1005);
    assert_eq!(v2, value(DistroRwLockMode::Read, 2, false, 1005));
    let v3 = v2.into_read_released();
    assert_eq!(v3, value(DistroRwLockMode::Read, 1, false, 1005));
    assert_eq!(v3.is_expired_at(1030), v2.is_expired_at(1030));
    assert_eq!(v3.into_read_released(), value(DistroRwLockMode::Idle, 0, false, 0));
}

#[test]
fn read_acquire_with_clock() {
    let v = DistroRwLockValue::new().into_read_acquired();
    assert_eq!(v.mode, DistroRwLockMode::Read);
    assert_eq!(v.readers, 1);
    assert!(v.acquired_at > 1_600_000_000);
    assert!(!v.is_expired());
    assert!(DistroRwLockValue::current_timestamp() >= v.acquired_at);
}

#[test]
fn write_acquire_and_release() {
    let v = value(DistroRwLockMode::Idle, 0, true, 0).into_write_acquired_at(50);
    assert_eq!(v, value(DistroRwLockMode::Write, 0, false, 50));
    assert_eq!(v.into_write_released(), value(DistroRwLockMode::Idle, 0, false, 0));
    let w = value(DistroRwLockMode::Write, 0, true, 50).into_write_released();
    assert_eq!(w, value(DistroRwLockMode::Idle, 0, true, 0));
    assert_eq!(DistroRwLockValue::new().into_write_acquired().mode, DistroRwLockMode::Write);
}

#[test]
fn waiting_flag_only() {
    let v = value(DistroRwLockMode::Read, 3, false, 7).into_waiting(true);
    assert_eq!(v, value(DistroRwLockMode::Read, 3, true, 7));
}

#[test]
fn expiry_after_sixty_seconds() {
    let v = value(DistroRwLockMode::Read, 1, false, 100);
    assert!(!v.is_expired_at(160));
    assert!(v.is_expired_at(161));
    assert!(!v.is_expired_at(50));
    assert!(!value(DistroRwLockMode::Idle, 0, false, 0).is_expired_at(10_000));
    assert!(!DistroRwLockValue::new().is_expired());
}

#[test]
fn lock_pair_keeps_key_and_value() {
    let v = value(DistroRwLockMode::Write, 0, false, 9);
    let lock = DistroRwLock::new("orders".to_string(), v);
    assert_eq!(lock.key(), "orders");
    assert_eq!(lock.value(), v);
    assert_eq!(lock.into_value(), v);
}

#[test]
fn acquire_read_creates_missing_lock() {
    let actions = run(LockOperation::AcquireRead, vec![LockEvent::Read(Ok(None)), LockEvent::Created(Ok(1))], 500);
    assert_eq!(actions[0], LockAction::Read);
    assert_eq!(actions[1], LockAction::Create { value: value(DistroRwLockMode::Read, 1, false, 500) });
    assert_eq!(actions[2], LockAction::Finish(Ok(())));
}

#[test]
fn acquire_read_retries_when_created_by_someone_else() {
    let actions = run(
        LockOperation::AcquireRead,
        vec![
            LockEvent::Read(Ok(None)),
            LockEvent::Created(Err(KvWriteError::CreateError(CreateErrorKind::AlreadyExists))),
            entry(value(DistroRwLockMode::Read, 1, false, 490), 4),
            LockEvent::Updated(Ok(Some(5))),
        ],
        500,
    );
    assert_eq!(actions[2], LockAction::Read);
    assert_eq!(actions[3], LockAction::Update { value: value(DistroRwLockMode::Read, 2, false, 500), revision: 4 });
    assert_eq!(actions[4], LockAction::Finish(Ok(())));
}

#[test]
fn acquire_read_waits_for_writer() {
    let now = 500;
    let held = run(LockOperation::AcquireRead, vec![entry(value(DistroRwLockMode::Write, 0, false, 490), 3)], now);
    assert_eq!(held[1], LockAction::Sleep { min_ms: 50, max_ms: 120 });
    let waiting = run(LockOperation::AcquireRead, vec![entry(value(DistroRwLockMode::Read, 2, true, 490), 3)], now);
    assert_eq!(waiting[1], LockAction::Sleep { min_ms: 50, max_ms: 120 });
}

#[test]
fn acquire_read_takes_over_expired_lock() {
    let actions = run(LockOperation::AcquireRead, vec![entry(value(DistroRwLockMode::Write, 0, false, 100), 8)], 200);
    assert_eq!(actions[1], LockAction::Update { value: value(DistroRwLockMode::Read, 1, false, 200), revision: 8 });
}

#[test]
fn acquire_read_waits_for_writer_even_over_expired_lock() {
    let actions = run(LockOperation::AcquireRead, vec![entry(value(DistroRwLockMode::Write, 0, true, 100), 8)], 200);
    assert_eq!(actions[1], LockAction::Sleep { min_ms: 50, max_ms: 120 });
}

#[test]
fn acquire_read_pauses_after_lost_race() {
    let actions = run(
        LockOperation::AcquireRead,
        vec![entry(DistroRwLockValue::new(), 2), LockEvent::Updated(Ok(None)), LockEvent::Slept],
        10,
    );
    assert_eq!(actions[2], LockAction::Sleep { min_ms: 20, max_ms: 70 });
    assert_eq!(actions[3], LockAction::Read);
}

#[test]
fn acquire_read_reports_failures() {
    let read_err = KvReadError::EntryError(EntryErrorKind::TimedOut);
    let actions = run(LockOperation::AcquireRead, vec![LockEvent::Read(Err(read_err.clone()))], 10);
    assert_eq!(actions[1], LockAction::Finish(Err(DistroRwLockError::ReadFailed(read_err))));

    let write_err = KvWriteError::UpdateError(UpdateErrorKind::TimedOut);
    let actions = run(
        LockOperation::AcquireRead,
        vec![entry(DistroRwLockValue::new(), 2), LockEvent::Updated(Err(write_err.clone()))],
        10,
    );
    assert_eq!(actions[2], LockAction::Finish(Err(DistroRwLockError::UpdateFailed(write_err))));

    let decode_err = KvReadError::DeserializeError(DeserializeError("bad".into()));
    let actions = run(LockOperation::ReleaseRead, vec![LockEvent::Read(Err(decode_err.clone()))], 10);
    assert_eq!(actions[1], LockAction::Finish(Err(DistroRwLockError::ReadFailed(decode_err))));

    let create_err = KvWriteError::<SerializeError>::CreateError(CreateErrorKind::Publish);
    let actions = run(
        LockOperation::AcquireRead,
        vec![LockEvent::Read(Ok(None)), LockEvent::Created(Err(create_err.clone()))],
        10,
    );
    assert_eq!(actions[2], LockAction::Finish(Err(DistroRwLockError::UpdateFailed(create_err))));
}

#[test]
fn release_read_cases() {
    let actions = run(LockOperation::ReleaseRead, vec![entry(value(DistroRwLockMode::Read, 2, false, 5), 7), LockEvent::Updated(Ok(Some(8)))], 10);
    assert_eq!(actions[1], LockAction::Update { value: value(DistroRwLockMode::Read, 1, false, 5), revision: 7 });
    assert_eq!(actions[2], LockAction::Finish(Ok(())));

    let idle = run(LockOperation::ReleaseRead, vec![entry(DistroRwLockValue::new(), 7)], 10);
    assert_eq!(idle[1], LockAction::Finish(Err(DistroRwLockError::AlreadyReleased)));

    let missing = run(LockOperation::ReleaseRead, vec![LockEvent::Read(Ok(None))], 10);
    assert_eq!(missing[1], LockAction::Finish(Err(DistroRwLockError::UnexpectedMissingValue)));
}

#[test]
fn set_writer_waiting_cases() {
    let same = run(LockOperation::SetWriterWaiting(true), vec![entry(value(DistroRwLockMode::Read, 1, true, 5), 1)], 10);
    assert_eq!(same[1], LockAction::Finish(Ok(())));

    let created = run(LockOperation::SetWriterWaiting(true), vec![LockEvent::Read(Ok(None))], 10);
    assert_eq!(created[1], LockAction::Create { value: value(DistroRwLockMode::Idle, 0, true, 0) });

    let flipped = run(LockOperation::SetWriterWaiting(true), vec![entry(value(DistroRwLockMode::Read, 1, false, 5), 1)], 10);
    assert_eq!(flipped[1], LockAction::Update { value: value(DistroRwLockMode::Read, 1, true, 5), revision: 1 });
}

#[test]
fn acquire_write_announces_then_takes_lock() {
    let actions = run(
        LockOperation::AcquireWrite { marked: false },
        vec![
            entry(value(DistroRwLockMode::Read, 1, false, 95), 1),
            LockEvent::Updated(Ok(Some(2))),
            entry(value(DistroRwLockMode::Read, 1, true, 95), 2),
            LockEvent::Slept,
            entry(value(DistroRwLockMode::Idle, 0, true, 0), 3),
            LockEvent::Updated(Ok(Some(4))),
        ],
        100,
    );
    assert_eq!(actions[1], LockAction::Update { value: value(DistroRwLockMode::Read, 1, true, 95), revision: 1 });
    assert_eq!(actions[2], LockAction::Read);
    assert_eq!(actions[3], LockAction::Sleep { min_ms: 50, max_ms: 120 });
    assert_eq!(actions[4], LockAction::Read);
    assert_eq!(actions[5], LockAction::Update { value: value(DistroRwLockMode::Write, 0, false, 100), revision: 3 });
    assert_eq!(actions[6], LockAction::Finish(Ok(())));
}

#[test]
fn acquire_write_lost_race_pause() {
    let (task, _) = LockTask::begin(LockOperation::AcquireWrite { marked: true });
    let (task, a) = task.step(entry(DistroRwLockValue::new(), 1), 100);
    assert_eq!(a, LockAction::Update { value: value(DistroRwLockMode::Write, 0, false, 100), revision: 1 });
    let (task, a) = task.step(LockEvent::Updated(Ok(None)), 100);
    assert_eq!(a, LockAction::Sleep { min_ms: 20, max_ms: 90 });
    assert_eq!(task.awaiting, LockAwaiting::Sleep);
    assert!(!task.is_finished());
}

#[test]
fn acquire_write_missing_entry_after_marking() {
    let actions = run(LockOperation::AcquireWrite { marked: true }, vec![LockEvent::Read(Ok(None))], 10);
    assert_eq!(actions[1], LockAction::Finish(Err(DistroRwLockError::UnexpectedMissingValue)));
}

#[test]
fn release_write_cases() {
    let actions = run(
        LockOperation::ReleaseWrite,
        vec![entry(value(DistroRwLockMode::Write, 0, true, 5), 9), LockEvent::Updated(Ok(None))],
        10,
    );
    assert_eq!(actions[1], LockAction::Update { value: value(DistroRwLockMode::Idle, 0, true, 0), revision: 9 });
    assert_eq!(actions[2], LockAction::Sleep { min_ms: 20, max_ms: 50 });
    let not_held = run(LockOperation::ReleaseWrite, vec![entry(value(DistroRwLockMode::Read, 1, false, 5), 9)], 10);
    assert_eq!(not_held[1], LockAction::Finish(Err(DistroRwLockError::AlreadyReleased)));
}

#[test]
fn finished_task_reports_it() {
    let (task, _) = LockTask::begin(LockOperation::ReleaseRead);
    let (task, _) = task.step(LockEvent::Read(Ok(None)), 0);
    assert!(task.is_finished());
}

#[test]
fn overflow_check() {
    let (task, _) = LockTask::begin(LockOperation::AcquireRead);
    let full = entry(value(DistroRwLockMode::Read, u64::MAX, false, 5), 1);
    assert!(task.would_overflow(&full, 10));
    let fine = entry(value(DistroRwLockMode::Read, 3, false, 5), 1);
    assert!(!task.would_overflow(&fine, 10));
}
