use shizuku::kv::frame_lock::{
    DistroRwLock, DistroRwLockAcquireError, DistroRwLockMode, DistroRwLockValue, FrameLockAction,
    FrameLockEntry, FrameLockEvent,
};
use shizuku::kv::{EntryErrorKind, KeyValue, KvReadError, KvWriteError, UpdateErrorKind};
use shizuku::message::{ByteDeserialize, ByteSerialize};

fn value(mode: DistroRwLockMode, readers: u64, writer_waiting: bool) -> DistroRwLockValue {
    DistroRwLockValue { mode, readers, writer_waiting }
}

#[test]
fn frame_encoding_is_state_byte_then_big_endian_readers() {
    let v = value(DistroRwLockMode::Read, 0x0102030405060708, true);
    assert_eq!(v.to_bytes().unwrap(), vec![0b101, 1, 2, 3, 4, 5, 6, 7, 8]);
    assert_eq!(DistroRwLockValue::new().to_bytes().unwrap(), vec![0; 9]);
    assert_eq!(value(DistroRwLockMode::Write, 1, false).to_bytes().unwrap(), vec![0b010, 0, 0, 0, 0, 0, 0, 0, 1]);
    assert_eq!(value(DistroRwLockMode::Idle, 0, true).to_bytes().unwrap(), vec![0b100, 0, 0, 0, 0, 0, 0, 0, 0]);
    assert_eq!(value(DistroRwLockMode::Write, 0, true).to_bytes().unwrap()[0], 0b110);
    assert_eq!(value(DistroRwLockMode::Read, 0, false).to_bytes().unwrap()[0], 0b001);
}

#[test]
fn frame_decoding() {
    assert_eq!(
        DistroRwLockValue::parse_from_bytes(&[0b110, 0, 0, 0, 0, 0, 0, 1, 0]),
        Ok(value(DistroRwLockMode::Write, 256, true))
    );
    assert_eq!(
        DistroRwLockValue::parse_from_bytes(&[0b001, 0, 0, 0, 0, 0, 0, 0]),
        Err(DistroRwLockAcquireError::InvalidByteLength)
    );
    assert_eq!(
        DistroRwLockValue::parse_from_bytes(&[0b011, 0, 0, 0, 0, 0, 0, 0, 0]),
        Err(DistroRwLockAcquireError::BadByteValue)
    );
    assert_eq!(
        DistroRwLockValue::parse_from_bytes(&[0b111, 0, 0, 0, 0, 0, 0, 0, 0]),
        Err(DistroRwLockAcquireError::BadByteValue)
    );
    assert_eq!(DistroRwLockValue::parse_from_bytes(&[]), Err(DistroRwLockAcquireError::InvalidByteLength));
}

#[test]
fn frame_round_trip() {
    for mode in [DistroRwLockMode::Idle, DistroRwLockMode::Read, DistroRwLockMode::Write] {
        for waiting in [false, true] {
            for readers in [0u64, 1, 255, 256, u64::MAX] {
                let v = value(mode, readers, waiting);
                let bytes = v.to_bytes().unwrap();
                assert_eq!(DistroRwLockValue::parse_from_bytes(&bytes), Ok(v));
            }
        }
    }
}

#[test]
fn frame_read_acquire() {
    assert_eq!(
        value(DistroRwLockMode::Idle, 0, false).into_read_acquired(),
        value(DistroRwLockMode::Read, 1, false)
    );
    assert_eq!(
        value(DistroRwLockMode::Read, 4, false).into_read_acquired(),
        value(DistroRwLockMode::Read, 5, false)
    );
}

#[test]
fn frame_lock_pair() {
    let lock = DistroRwLock::new("k".to_string(), DistroRwLockValue::new());
    assert_eq!(lock.key(), "k");
    assert_eq!(lock.value(), DistroRwLockValue::new());
    assert_eq!(lock.into_value(), DistroRwLockValue::new());
}

#[test]
fn frame_acquire_read_steps() {
    assert_eq!(DistroRwLock::acquire_read_begin(), FrameLockAction::Read);
    let writer = FrameLockEvent::Read(Ok(Some(FrameLockEntry { value: value(DistroRwLockMode::Write, 0, false), revision: 1 })));
    assert_eq!(DistroRwLock::acquire_read_step(writer), FrameLockAction::Sleep { millis: 100 });
    let free = FrameLockEvent::Read(Ok(Some(FrameLockEntry { value: value(DistroRwLockMode::Read, 2, false), revision: 6 })));
    assert_eq!(
        DistroRwLock::acquire_read_step(free),
        FrameLockAction::Update { value: value(DistroRwLockMode::Read, 3, false), revision: 6 }
    );
    assert_eq!(DistroRwLock::acquire_read_step(FrameLockEvent::Read(Ok(None))), FrameLockAction::Read);
    assert_eq!(DistroRwLock::acquire_read_step(FrameLockEvent::Updated(Ok(Some(7)))), FrameLockAction::Finish(Ok(true)));
    assert_eq!(DistroRwLock::acquire_read_step(FrameLockEvent::Updated(Ok(None))), FrameLockAction::Sleep { millis: 50 });
    assert_eq!(DistroRwLock::acquire_read_step(FrameLockEvent::Slept), FrameLockAction::Read);
    let err = KvReadError::EntryError(EntryErrorKind::Other);
    assert_eq!(
        DistroRwLock::acquire_read_step(FrameLockEvent::Read(Err(err.clone()))),
        FrameLockAction::Finish(Err(DistroRwLockAcquireError::ReadFailed(err)))
    );
    let werr = KvWriteError::UpdateError(UpdateErrorKind::InvalidKey);
    assert_eq!(
        DistroRwLock::acquire_read_step(FrameLockEvent::Updated(Err(werr.clone()))),
        FrameLockAction::Finish(Err(DistroRwLockAcquireError::UpdateFailed(werr)))
    );
    let full = FrameLockEvent::Read(Ok(Some(FrameLockEntry { value: value(DistroRwLockMode::Read, u64::MAX, false), revision: 1 })));
    assert!(DistroRwLock::would_overflow(&full));
}
