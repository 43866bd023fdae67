use shizuku::kv::atomic_opt::{AtomicAction, AtomicEvent, AtomicMapTask, AtomicOptError, AtomicRead};
use shizuku::kv::frame_lock::{DistroRwLockAcquireError, DistroRwLockMode, DistroRwLockValue};
use shizuku::kv::{
    create_outcome, encode_for_write, read_entry, read_value, update_outcome, CreateErrorKind, EntryErrorKind,
    KvEntry, KvOperation, KvReadError, KvWriteError, RawKvEntry, UpdateErrorKind,
};

fn raw(value: Vec<u8>) -> RawKvEntry {
    RawKvEntry {
        bucket: "b".into(),
        key: "k".into(),
        value,
        revision: 12,
        delta: 0,
        created_at: 1_700_000_000_000_000_000,
        operation: KvOperation::Put,
        seen_current: true,
    }
}

#[test]
fn update_outcomes() {
    assert_eq!(update_outcome::<()>(Ok(5)), Ok(Some(5)));
    assert_eq!(update_outcome::<()>(Err(UpdateErrorKind::WrongLastRevision)), Ok(None));
    assert_eq!(
        update_outcome::<()>(Err(UpdateErrorKind::TimedOut)),
        Err(KvWriteError::UpdateError(UpdateErrorKind::TimedOut))
    );
    assert_eq!(create_outcome::<()>(Ok(1)), Ok(1));
    assert_eq!(
        create_outcome::<()>(Err(CreateErrorKind::AlreadyExists)),
        Err(KvWriteError::CreateError(CreateErrorKind::AlreadyExists))
    );
}

#[test]
fn entries_are_decoded() {
    let e: KvEntry<DistroRwLockValue> = KvEntry::try_from_raw(raw(vec![1, 0, 0, 0, 0, 0, 0, 0, 2])).unwrap();
    assert_eq!(e.value, DistroRwLockValue { mode: DistroRwLockMode::Read, readers: 2, writer_waiting: false });
    assert_eq!((e.bucket.as_str(), e.key.as_str(), e.revision, e.seen_current), ("b", "k", 12, true));
    assert_eq!(e.operation, KvOperation::Put);

    let r = read_entry::<DistroRwLockValue>(Ok(Some(raw(vec![9; 9]))));
    assert_eq!(r.err(), Some(KvReadError::DeserializeError(DistroRwLockAcquireError::BadByteValue)));
    let r = read_entry::<DistroRwLockValue>(Ok(None));
    assert!(matches!(r, Ok(None)));
    let r = read_entry::<DistroRwLockValue>(Err(EntryErrorKind::InvalidKey));
    assert_eq!(r.err(), Some(KvReadError::EntryError(EntryErrorKind::InvalidKey)));
}

#[test]
fn plain_values_are_decoded() {
    assert_eq!(
        read_value::<DistroRwLockValue>(Ok(Some(vec![2, 0, 0, 0, 0, 0, 0, 0, 0]))),
        Ok(Some(DistroRwLockValue { mode: DistroRwLockMode::Write, readers: 0, writer_waiting: false }))
    );
    assert_eq!(
        read_value::<DistroRwLockValue>(Ok(Some(vec![2]))),
        Err(KvReadError::DeserializeError(DistroRwLockAcquireError::InvalidByteLength))
    );
    assert_eq!(read_value::<DistroRwLockValue>(Ok(None)), Ok(None));
}

#[test]
fn values_are_encoded_for_writing() {
    let v = DistroRwLockValue { mode: DistroRwLockMode::Idle, readers: 1, writer_waiting: true };
    assert_eq!(encode_for_write(&v).unwrap(), vec![4, 0, 0, 0, 0, 0, 0, 0, 1]);
}

#[test]
fn atomic_operation_bounded() {
    let (task, a) = AtomicMapTask::begin(Some(2));
    assert_eq!(a, AtomicAction::Read);
    let (task, a) = task.step(AtomicEvent::Read(AtomicRead::Failed(KvReadError::EntryError(EntryErrorKind::TimedOut))));
    assert_eq!(a, AtomicAction::Read);
    let (task, a) = task.step(AtomicEvent::Read(AtomicRead::Found));
    assert_eq!(a, AtomicAction::TransformAndWrite);
    let err = KvWriteError::UpdateError(UpdateErrorKind::Other);
    let (_, a) = task.step(AtomicEvent::Written(Err(err.clone())));
    assert_eq!(a, AtomicAction::Finish(Err(AtomicOptError::WriteError(err))));
}

#[test]
fn atomic_operation_outcomes() {
    let (_, a) = AtomicMapTask::begin(Some(0));
    assert_eq!(a, AtomicAction::Finish(Err(AtomicOptError::NeverTry)));
    let (task, _) = AtomicMapTask::begin(None);
    let (task, a) = task.step(AtomicEvent::Written(Err(KvWriteError::UpdateError(UpdateErrorKind::Other))));
    assert_eq!(a, AtomicAction::Read);
    let (task, a) = task.step(AtomicEvent::Read(AtomicRead::Missing));
    assert_eq!(a, AtomicAction::Finish(Err(AtomicOptError::NotFound)));
    let (task, a) = task.step(AtomicEvent::Written(Ok(None)));
    assert_eq!(a, AtomicAction::Read);
    let (_, a) = task.step(AtomicEvent::Written(Ok(Some(9))));
    assert_eq!(a, AtomicAction::Finish(Ok(())));
    let (task, _) = AtomicMapTask::begin(Some(2));
    let (task, a) = task.step(AtomicEvent::Written(Ok(None)));
    assert_eq!(a, AtomicAction::Read);
    let (_, a) = task.step(AtomicEvent::Written(Ok(None)));
    assert_eq!(a, AtomicAction::Finish(Err(AtomicOptError::WriteConflict)));
}
