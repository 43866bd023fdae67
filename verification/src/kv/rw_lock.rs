//! A distributed read-write lock kept in one entry of a key-value bucket.
//!
//! 1. Many readers may hold the lock at once, but only one writer.
//! 2. Writers go first: while a writer waits, new readers are turned away,
//!    even from a lock that has expired.
//! 3. A lock held for more than 60 seconds counts as abandoned and may be
//!    taken over.
//!
//! Each operation on the lock is a [`LockTask`]: it tells the caller which
//! bucket operation to perform next ([`LockAction`]) and is fed the outcome
//! ([`LockEvent`]), until it finishes with a result.

use crate::clock;
use crate::kv::{KeyValue, CreateErrorKind, KvReadError, KvWriteError};
use vstd::prelude::*;

verus! {

/// The current mode of the lock.
#[derive(Debug, Clone, Copy, PartialEq, Eq, Structural)]
pub enum DistroRwLockMode {
    /// The lock is held by readers.
    Read,
    /// The lock is held by a writer.
    Write,
    /// The lock is not held.
    Idle,
}

impl Default for DistroRwLockMode {
    fn default() -> (r: Self)
        ensures
            r == DistroRwLockMode::Idle,
    {
        DistroRwLockMode::Idle
    }
}

/// The state of a [`DistroRwLock`], as stored in the bucket.
#[derive(Debug, Clone, Copy, PartialEq, Eq, Structural)]
pub struct DistroRwLockValue {
    /// The current mode of the lock.
    pub mode: DistroRwLockMode,
    /// The number of readers.
    pub readers: u64,
    /// Whether a writer is waiting.
    pub writer_waiting: bool,
    /// When the lock was taken, in seconds since the UNIX epoch. Only
    /// meaningful while the mode is `Read` or `Write`.
    pub acquired_at: u64,
}

impl Default for DistroRwLockValue {
    fn default() -> (r: Self)
        ensures
            r == DistroRwLockValue::spec_new(),
    {
        DistroRwLockValue {
            mode: DistroRwLockMode::Idle,
            readers: 0,
            writer_waiting: false,
            acquired_at: 0,
        }
    }
}

/// How long a lock may be held before it counts as abandoned, in seconds.
pub const LOCK_EXPIRY_SECS: u64 = 60;

/// `a - b`, or `0` when `b > a`.
pub open spec fn saturating_diff(a: u64, b: u64) -> int {
    if a >= b {
        a - b
    } else {
        0
    }
}

impl DistroRwLockValue {
    /// A lock that nobody holds and no writer waits for.
    pub open spec fn spec_new() -> Self {
        DistroRwLockValue {
            mode: DistroRwLockMode::Idle,
            readers: 0,
            writer_waiting: false,
            acquired_at: 0,
        }
    }

    /// The consistency of mode and counters: an idle lock has no readers
    /// and no acquisition time, a lock held for reading has a reader, and
    /// a lock held for writing has none.
    pub open spec fn well_formed(self) -> bool {
        match self.mode {
            DistroRwLockMode::Idle => self.readers == 0 && self.acquired_at == 0,
            DistroRwLockMode::Read => self.readers >= 1,
            DistroRwLockMode::Write => self.readers == 0,
        }
    }

    /// The lock is held and was taken more than [`LOCK_EXPIRY_SECS`]
    /// seconds before `now`.
    pub open spec fn spec_is_expired_at(self, now: u64) -> bool {
        self.mode != DistroRwLockMode::Idle && saturating_diff(now, self.acquired_at) > 60
    }

    /// The lock after one more reader took it at `now`.
    pub open spec fn spec_into_read_acquired_at(self, now: u64) -> Self {
        DistroRwLockValue {
            mode: DistroRwLockMode::Read,
            readers: (self.readers + 1) as u64,
            writer_waiting: self.writer_waiting,
            acquired_at: now,
        }
    }

    /// The lock after one reader let it go: still held for reading, since
    /// the same time, while readers remain; idle with the last one.
    pub open spec fn spec_into_read_released(self) -> Self {
        DistroRwLockValue {
            mode: if self.readers - 1 > 0 {
                DistroRwLockMode::Read
            } else {
                DistroRwLockMode::Idle
            },
            readers: (self.readers - 1) as u64,
            writer_waiting: self.writer_waiting,
            acquired_at: if self.readers - 1 > 0 {
                self.acquired_at
            } else {
                0
            },
        }
    }

    /// The lock with the writer-waiting flag set to `writer_waiting`.
    pub open spec fn spec_into_waiting(self, writer_waiting: bool) -> Self {
        DistroRwLockValue { writer_waiting, ..self }
    }

    /// The lock after a writer took it at `now`.
    pub open spec fn spec_into_write_acquired_at(self, now: u64) -> Self {
        DistroRwLockValue {
            mode: DistroRwLockMode::Write,
            readers: 0,
            writer_waiting: false,
            acquired_at: now,
        }
    }

    /// The lock after the writer let it go.
    pub open spec fn spec_into_write_released(self) -> Self {
        DistroRwLockValue {
            mode: DistroRwLockMode::Idle,
            readers: 0,
            writer_waiting: self.writer_waiting,
            acquired_at: 0,
        }
    }

    /// Create a new lock: idle, no readers, no writer waiting.
    pub fn new() -> (r: Self)
        ensures
            r == Self::spec_new(),
    {
        Self::default()
    }

    /// The current time in seconds since the UNIX epoch.
    pub fn current_timestamp() -> u64 {
        clock::current_timestamp()
    }

    /// Whether the lock is held and was taken more than 60 seconds before
    /// `now`.
    pub fn is_expired_at(&self, now: u64) -> (b: bool)
        ensures
            b == self.spec_is_expired_at(now),
    {
        if self.mode == DistroRwLockMode::Idle {
            return false;
        }
        now.saturating_sub(self.acquired_at) > LOCK_EXPIRY_SECS
    }

    /// Whether the lock has been held for more than 60 seconds, by the
    /// system clock. An idle lock never expires.
    pub fn is_expired(&self) -> (b: bool)
        ensures
            self.mode == DistroRwLockMode::Idle ==> !b,
            b ==> exists|now: u64| self.spec_is_expired_at(now),
    {
        let now = Self::current_timestamp();
        self.is_expired_at(now)
    }

    /// Add a reader, taking the lock for reading at `now`.
    pub fn into_read_acquired_at(self, now: u64) -> (r: Self)
        requires
            self.readers < u64::MAX,
        ensures
            r == self.spec_into_read_acquired_at(now),
    {
        DistroRwLockValue {
            mode: DistroRwLockMode::Read,
            readers: self.readers + 1,
            writer_waiting: self.writer_waiting,
            acquired_at: now,
        }
    }

    /// Add a reader, taking the lock for reading at the current time.
    pub fn into_read_acquired(self) -> (r: Self)
        requires
            self.readers < u64::MAX,
        ensures
            r == self.spec_into_read_acquired_at(r.acquired_at),
    {
        let now = Self::current_timestamp();
        self.into_read_acquired_at(now)
    }

    /// Remove a reader; the lock keeps its acquisition time while readers
    /// remain and goes idle with the last one.
    pub fn into_read_released(self) -> (r: Self)
        requires
            self.readers > 0,
        ensures
            r == self.spec_into_read_released(),
    {
        let new_readers: u64 = self.readers - 1;
        if new_readers > 0 {
            DistroRwLockValue {
                mode: DistroRwLockMode::Read,
                readers: new_readers,
                writer_waiting: self.writer_waiting,
                acquired_at: self.acquired_at,
            }
        } else {
            DistroRwLockValue {
                mode: DistroRwLockMode::Idle,
                readers: 0,
                writer_waiting: self.writer_waiting,
                acquired_at: 0,
            }
        }
    }

    /// Set whether a writer is waiting.
    pub fn into_waiting(self, writer_waiting: bool) -> (r: Self)
        ensures
            r == self.spec_into_waiting(writer_waiting),
    {
        DistroRwLockValue {
            mode: self.mode,
            readers: self.readers,
            writer_waiting,
            acquired_at: self.acquired_at,
        }
    }

    /// Take the lock for writing at `now`.
    pub fn into_write_acquired_at(self, now: u64) -> (r: Self)
        ensures
            r == self.spec_into_write_acquired_at(now),
    {
        DistroRwLockValue {
            mode: DistroRwLockMode::Write,
            readers: 0,
            writer_waiting: false,
            acquired_at: now,
        }
    }

    /// Take the lock for writing at the current time.
    pub fn into_write_acquired(self) -> (r: Self)
        ensures
            r == self.spec_into_write_acquired_at(r.acquired_at),
    {
        let now = Self::current_timestamp();
        self.into_write_acquired_at(now)
    }

    /// Release the lock held for writing.
    pub fn into_write_released(self) -> (r: Self)
        ensures
            r == self.spec_into_write_released(),
    {
        DistroRwLockValue {
            mode: DistroRwLockMode::Idle,
            readers: 0,
            writer_waiting: self.writer_waiting,
            acquired_at: 0,
        }
    }
}


/// Error when decoding the lock state.
#[derive(Debug, Clone, Copy, PartialEq, Eq, Structural)]
pub enum DistroRwLockDesErr {
    /// The bytes have the wrong length.
    InvalidByteLength,
    /// The bytes hold a value that no lock state encodes to.
    BadByteValue,
}

/// Error when encoding the lock state. Encoding the lock state cannot
/// fail, so no function of this crate produces this value.
#[derive(Debug, Clone, Copy, PartialEq, Eq, Structural)]
pub struct DistroRwLockSerErr;

/// Error when trying to acquire or release the lock.
#[derive(Debug, Clone, PartialEq, Eq)]
pub enum DistroRwLockError {
    /// Reading the lock failed.
    ReadFailed(KvReadError),
    /// Writing the lock failed.
    UpdateFailed(KvWriteError),
    /// The lock to release is not held.
    AlreadyReleased,
    /// The lock entry is missing although it must exist.
    UnexpectedMissingValue,
}

impl DistroRwLockDesErr {
    /// How the error is written out.
    pub fn message(&self) -> (r: String)
        ensures
            r@ == match self {
                DistroRwLockDesErr::InvalidByteLength => "Invalid byte length"@,
                DistroRwLockDesErr::BadByteValue => "Invalid byte value"@,
            },
    {
        match self {
            DistroRwLockDesErr::InvalidByteLength => "Invalid byte length".to_owned(),
            DistroRwLockDesErr::BadByteValue => "Invalid byte value".to_owned(),
        }
    }
}

impl DistroRwLockSerErr {
    /// How the error is written out.
    pub fn message(&self) -> (r: String)
        ensures
            r@ == "Failed to serialize lock state"@,
    {
        "Failed to serialize lock state".to_owned()
    }
}

/// A distributed read-write lock: the key of its entry and its state.
#[derive(Debug, Clone)]
pub struct DistroRwLock {
    key: String,
    value: DistroRwLockValue,
}

impl DistroRwLock {
    /// The key of the entry.
    pub closed spec fn spec_key(&self) -> Seq<char> {
        self.key@
    }

    /// The state of the lock.
    pub closed spec fn spec_value(&self) -> DistroRwLockValue {
        self.value
    }
}

impl KeyValue for DistroRwLock {
    type Key = String;
    type Value = DistroRwLockValue;

    /// The key of the entry.
    fn key(&self) -> (k: String)
        ensures
            k@ == self.spec_key(),
    {
        self.key.clone()
    }

    /// The state of the lock.
    fn value(&self) -> (v: DistroRwLockValue)
        ensures
            v == self.spec_value(),
    {
        self.value
    }

    /// The state of the lock, consuming the pair.
    fn into_value(self) -> (v: DistroRwLockValue)
        ensures
            v == self.spec_value(),
    {
        self.value
    }

    /// Pair a key with a lock state.
    fn new(key: String, value: DistroRwLockValue) -> (r: Self)
        ensures
            r.spec_key() == key@,
            r.spec_value() == value,
    {
        DistroRwLock { key, value }
    }
}

/// The lock entry as read from the bucket, with its revision.
#[derive(Debug, Clone, Copy, PartialEq, Eq, Structural)]
pub struct LockEntry {
    /// The stored lock state.
    pub value: DistroRwLockValue,
    /// The revision of the entry.
    pub revision: u64,
}

/// The operation a [`LockTask`] performs.
#[derive(Debug, Clone, Copy, PartialEq, Eq, Structural)]
pub enum LockOperation {
    /// Take the lock for reading.
    AcquireRead,
    /// Let go of the lock held for reading.
    ReleaseRead,
    /// Set whether a writer is waiting, creating the entry if it is missing.
    SetWriterWaiting(bool),
    /// Take the lock for writing: first announce the waiting writer
    /// (`marked` is false), then take the lock (`marked` is true).
    AcquireWrite { marked: bool },
    /// Let go of the lock held for writing.
    ReleaseWrite,
}

/// The bucket operation a [`LockTask`] asks for, or its result.
#[derive(Debug, PartialEq, Eq)]
pub enum LockAction {
    /// Read the lock entry with its revision.
    Read,
    /// Write `value` if the entry still has `revision`.
    Update { value: DistroRwLockValue, revision: u64 },
    /// Create the entry with `value`.
    Create { value: DistroRwLockValue },
    /// Sleep for a random time of at least `min_ms` and less than `max_ms`
    /// milliseconds.
    Sleep { min_ms: u64, max_ms: u64 },
    /// The operation is over, with this result.
    Finish(Result<(), DistroRwLockError>),
}

/// The outcome of the bucket operation a [`LockTask`] asked for.
#[derive(Debug, PartialEq, Eq)]
pub enum LockEvent {
    /// The outcome of [`LockAction::Read`]: the entry, if there is one.
    Read(Result<Option<LockEntry>, KvReadError>),
    /// The outcome of [`LockAction::Update`]: the new revision, or `None`
    /// when the entry had changed.
    Updated(Result<Option<u64>, KvWriteError>),
    /// The outcome of [`LockAction::Create`]: the new revision.
    Created(Result<u64, KvWriteError>),
    /// [`LockAction::Sleep`] is over.
    Slept,
}

/// What a [`LockTask`] waits for.
#[derive(Debug, Clone, Copy, PartialEq, Eq, Structural)]
pub enum LockAwaiting {
    /// The outcome of a read.
    Read,
    /// The outcome of an update.
    Update,
    /// The outcome of a creation.
    Create,
    /// The end of a sleep.
    Sleep,
    /// Nothing: the task is finished.
    Nothing,
}

/// An operation on the lock in progress.
#[derive(Debug, Clone, Copy, PartialEq, Eq, Structural)]
pub struct LockTask {
    /// The operation.
    pub op: LockOperation,
    /// What the task waits for.
    pub awaiting: LockAwaiting,
}

/// What a task waits for after asking for `action`.
pub open spec fn awaiting_after(action: LockAction) -> LockAwaiting {
    match action {
        LockAction::Read => LockAwaiting::Read,
        LockAction::Update { .. } => LockAwaiting::Update,
        LockAction::Create { .. } => LockAwaiting::Create,
        LockAction::Sleep { .. } => LockAwaiting::Sleep,
        LockAction::Finish(_) => LockAwaiting::Nothing,
    }
}

/// The random pause after losing a race for the entry, by operation.
pub open spec fn spec_race_pause(op: LockOperation) -> LockAction {
    match op {
        LockOperation::AcquireWrite { marked: true } => LockAction::Sleep { min_ms: 20, max_ms: 90 },
        LockOperation::ReleaseWrite => LockAction::Sleep { min_ms: 20, max_ms: 50 },
        _ => LockAction::Sleep { min_ms: 20, max_ms: 70 },
    }
}

/// The pause while the lock is held by others.
pub open spec fn spec_blocked_pause() -> LockAction {
    LockAction::Sleep { min_ms: 50, max_ms: 120 }
}

impl LockTask {
    /// The task accepts `event`: it is the outcome of what the task asked for.
    pub open spec fn accepts(self, event: LockEvent) -> bool {
        match (self.awaiting, event) {
            (LockAwaiting::Read, LockEvent::Read(_)) => true,
            (LockAwaiting::Update, LockEvent::Updated(_)) => true,
            (LockAwaiting::Create, LockEvent::Created(_)) => true,
            (LockAwaiting::Sleep, LockEvent::Slept) => true,
            _ => false,
        }
    }

    /// Taking one more reader would overflow the reader count.
    pub open spec fn reader_overflow(self, event: LockEvent, now: u64) -> bool {
        &&& self.op == LockOperation::AcquireRead
        &&& event matches LockEvent::Read(Ok(Some(e)))
        &&& !e.value.spec_is_expired_at(now)
        &&& e.value.mode != DistroRwLockMode::Write
        &&& !e.value.writer_waiting
        &&& e.value.readers == u64::MAX
    }

    /// The decision on the entry just read, by operation: the next
    /// operation and the next action.
    pub open spec fn spec_on_read(
        op: LockOperation,
        read: Result<Option<LockEntry>, KvReadError>,
        now: u64,
    ) -> (LockOperation, LockAction) {
        match read {
            Err(err) => (op, LockAction::Finish(Err(DistroRwLockError::ReadFailed(err)))),
            Ok(None) => match op {
                LockOperation::AcquireRead => (op, LockAction::Create {
                    value: DistroRwLockValue::spec_new().spec_into_read_acquired_at(now),
                }),
                LockOperation::SetWriterWaiting(w) => (op, LockAction::Create {
                    value: DistroRwLockValue::spec_new().spec_into_waiting(w),
                }),
                LockOperation::AcquireWrite { marked: false } => (op, LockAction::Create {
                    value: DistroRwLockValue::spec_new().spec_into_waiting(true),
                }),
                _ => (op, LockAction::Finish(Err(DistroRwLockError::UnexpectedMissingValue))),
            },
            Ok(Some(e)) => {
                let v = e.value;
                match op {
                    LockOperation::AcquireRead => if v.writer_waiting {
                        (op, spec_blocked_pause())
                    } else if v.spec_is_expired_at(now) {
                        (op, LockAction::Update {
                            value: DistroRwLockValue {
                                mode: DistroRwLockMode::Read,
                                readers: 1,
                                writer_waiting: v.writer_waiting,
                                acquired_at: now,
                            },
                            revision: e.revision,
                        })
                    } else if v.mode == DistroRwLockMode::Write {
                        (op, spec_blocked_pause())
                    } else {
                        (op, LockAction::Update { value: v.spec_into_read_acquired_at(now), revision: e.revision })
                    },
                    LockOperation::ReleaseRead => if v.mode != DistroRwLockMode::Read || v.readers == 0 {
                        (op, LockAction::Finish(Err(DistroRwLockError::AlreadyReleased)))
                    } else {
                        (op, LockAction::Update { value: v.spec_into_read_released(), revision: e.revision })
                    },
                    LockOperation::SetWriterWaiting(w) => if v.writer_waiting == w {
                        (op, LockAction::Finish(Ok(())))
                    } else {
                        (op, LockAction::Update { value: v.spec_into_waiting(w), revision: e.revision })
                    },
                    LockOperation::AcquireWrite { marked: false } => if v.writer_waiting {
                        (LockOperation::AcquireWrite { marked: true }, LockAction::Read)
                    } else {
                        (op, LockAction::Update { value: v.spec_into_waiting(true), revision: e.revision })
                    },
                    LockOperation::AcquireWrite { marked: true } => if v.spec_is_expired_at(now) {
                        (op, LockAction::Update {
                            value: DistroRwLockValue {
                                mode: DistroRwLockMode::Write,
                                readers: 0,
                                writer_waiting: false,
                                acquired_at: now,
                            },
                            revision: e.revision,
                        })
                    } else if v.mode == DistroRwLockMode::Write || v.readers > 0 {
                        (op, spec_blocked_pause())
                    } else {
                        (op, LockAction::Update { value: v.spec_into_write_acquired_at(now), revision: e.revision })
                    },
                    LockOperation::ReleaseWrite => if v.mode != DistroRwLockMode::Write {
                        (op, LockAction::Finish(Err(DistroRwLockError::AlreadyReleased)))
                    } else {
                        (op, LockAction::Update { value: v.spec_into_write_released(), revision: e.revision })
                    },
                }
            },
        }
    }

    /// The decision on the outcome of an update.
    pub open spec fn spec_on_updated(
        op: LockOperation,
        outcome: Result<Option<u64>, KvWriteError>,
    ) -> (LockOperation, LockAction) {
        match outcome {
            Ok(Some(_)) => match op {
                LockOperation::AcquireWrite { marked: false } => (
                    LockOperation::AcquireWrite { marked: true },
                    LockAction::Read,
                ),
                _ => (op, LockAction::Finish(Ok(()))),
            },
            Ok(None) => (op, spec_race_pause(op)),
            Err(err) => (op, LockAction::Finish(Err(DistroRwLockError::UpdateFailed(err)))),
        }
    }

    /// The decision on the outcome of a creation.
    pub open spec fn spec_on_created(
        op: LockOperation,
        outcome: Result<u64, KvWriteError>,
    ) -> (LockOperation, LockAction) {
        match outcome {
            Ok(_) => match op {
                LockOperation::AcquireWrite { marked: false } => (
                    LockOperation::AcquireWrite { marked: true },
                    LockAction::Read,
                ),
                _ => (op, LockAction::Finish(Ok(()))),
            },
            Err(KvWriteError::CreateError(CreateErrorKind::AlreadyExists)) => (op, LockAction::Read),
            Err(err) => (op, LockAction::Finish(Err(DistroRwLockError::UpdateFailed(err)))),
        }
    }

    /// The next operation and action after `event`, the time being `now`.
    pub open spec fn spec_decide(self, event: LockEvent, now: u64) -> (LockOperation, LockAction) {
        match event {
            LockEvent::Read(read) => Self::spec_on_read(self.op, read, now),
            LockEvent::Updated(outcome) => Self::spec_on_updated(self.op, outcome),
            LockEvent::Created(outcome) => Self::spec_on_created(self.op, outcome),
            LockEvent::Slept => (self.op, LockAction::Read),
        }
    }

    /// The task and action after `event`, the time being `now`.
    pub open spec fn spec_step(self, event: LockEvent, now: u64) -> (LockTask, LockAction) {
        let (op, action) = self.spec_decide(event, now);
        (LockTask { op, awaiting: awaiting_after(action) }, action)
    }

    /// Start `op`: every operation begins by reading the lock entry.
    pub fn begin(op: LockOperation) -> (r: (LockTask, LockAction))
        ensures
            r.0 == (LockTask { op, awaiting: LockAwaiting::Read }),
            r.1 == LockAction::Read,
    {
        (LockTask { op, awaiting: LockAwaiting::Read }, LockAction::Read)
    }

    /// The task is finished.
    pub fn is_finished(&self) -> (b: bool)
        ensures
            b == (self.awaiting == LockAwaiting::Nothing),
    {
        self.awaiting == LockAwaiting::Nothing
    }

    /// Whether taking one more reader would overflow the reader count.
    pub fn would_overflow(&self, event: &LockEvent, now: u64) -> (b: bool)
        ensures
            b == self.reader_overflow(*event, now),
    {
        match (self.op, event) {
            (LockOperation::AcquireRead, LockEvent::Read(Ok(Some(e)))) => {
                !e.value.is_expired_at(now) && e.value.mode != DistroRwLockMode::Write
                    && !e.value.writer_waiting && e.value.readers == u64::MAX
            },
            _ => false,
        }
    }

    fn on_read(op: LockOperation, read: Result<Option<LockEntry>, KvReadError>, now: u64) -> (r: (LockOperation, LockAction))
        requires
            !(LockTask { op, awaiting: LockAwaiting::Read }).reader_overflow(LockEvent::Read(read), now),
        ensures
            r == Self::spec_on_read(op, read, now),
    {
        match read {
            Err(err) => (op, LockAction::Finish(Err(DistroRwLockError::ReadFailed(err)))),
            Ok(None) => match op {
                LockOperation::AcquireRead => (op, LockAction::Create {
                    value: DistroRwLockValue::new().into_read_acquired_at(now),
                }),
                LockOperation::SetWriterWaiting(w) => (op, LockAction::Create {
                    value: DistroRwLockValue::new().into_waiting(w),
                }),
                LockOperation::AcquireWrite { marked: false } => (op, LockAction::Create {
                    value: DistroRwLockValue::new().into_waiting(true),
                }),
                _ => (op, LockAction::Finish(Err(DistroRwLockError::UnexpectedMissingValue))),
            },
            Ok(Some(e)) => {
                let v = e.value;
                match op {
                    LockOperation::AcquireRead => if v.writer_waiting {
                        (op, LockAction::Sleep { min_ms: 50, max_ms: 120 })
                    } else if v.is_expired_at(now) {
                        (op, LockAction::Update {
                            value: DistroRwLockValue {
                                mode: DistroRwLockMode::Read,
                                readers: 1,
                                writer_waiting: v.writer_waiting,
                                acquired_at: now,
                            },
                            revision: e.revision,
                        })
                    } else if v.mode == DistroRwLockMode::Write {
                        (op, LockAction::Sleep { min_ms: 50, max_ms: 120 })
                    } else {
                        (op, LockAction::Update { value: v.into_read_acquired_at(now), revision: e.revision })
                    },
                    LockOperation::ReleaseRead => if v.mode != DistroRwLockMode::Read || v.readers == 0 {
                        (op, LockAction::Finish(Err(DistroRwLockError::AlreadyReleased)))
                    } else {
                        (op, LockAction::Update { value: v.into_read_released(), revision: e.revision })
                    },
                    LockOperation::SetWriterWaiting(w) => if v.writer_waiting == w {
                        (op, LockAction::Finish(Ok(())))
                    } else {
                        (op, LockAction::Update { value: v.into_waiting(w), revision: e.revision })
                    },
                    LockOperation::AcquireWrite { marked: false } => if v.writer_waiting {
                        (LockOperation::AcquireWrite { marked: true }, LockAction::Read)
                    } else {
                        (op, LockAction::Update { value: v.into_waiting(true), revision: e.revision })
                    },
                    LockOperation::AcquireWrite { marked: true } => if v.is_expired_at(now) {
                        (op, LockAction::Update {
                            value: DistroRwLockValue {
                                mode: DistroRwLockMode::Write,
                                readers: 0,
                                writer_waiting: false,
                                acquired_at: now,
                            },
                            revision: e.revision,
                        })
                    } else if v.mode == DistroRwLockMode::Write || v.readers > 0 {
                        (op, LockAction::Sleep { min_ms: 50, max_ms: 120 })
                    } else {
                        (op, LockAction::Update { value: v.into_write_acquired_at(now), revision: e.revision })
                    },
                    LockOperation::ReleaseWrite => if v.mode != DistroRwLockMode::Write {
                        (op, LockAction::Finish(Err(DistroRwLockError::AlreadyReleased)))
                    } else {
                        (op, LockAction::Update { value: v.into_write_released(), revision: e.revision })
                    },
                }
            },
        }
    }

    fn race_pause(op: LockOperation) -> (a: LockAction)
        ensures
            a == spec_race_pause(op),
    {
        match op {
            LockOperation::AcquireWrite { marked: true } => LockAction::Sleep { min_ms: 20, max_ms: 90 },
            LockOperation::ReleaseWrite => LockAction::Sleep { min_ms: 20, max_ms: 50 },
            _ => LockAction::Sleep { min_ms: 20, max_ms: 70 },
        }
    }

    fn on_updated(op: LockOperation, outcome: Result<Option<u64>, KvWriteError>) -> (r: (LockOperation, LockAction))
        ensures
            r == Self::spec_on_updated(op, outcome),
    {
        match outcome {
            Ok(Some(_)) => match op {
                LockOperation::AcquireWrite { marked: false } => (
                    LockOperation::AcquireWrite { marked: true },
                    LockAction::Read,
                ),
                _ => (op, LockAction::Finish(Ok(()))),
            },
            Ok(None) => (op, Self::race_pause(op)),
            Err(err) => (op, LockAction::Finish(Err(DistroRwLockError::UpdateFailed(err)))),
        }
    }

    fn on_created(op: LockOperation, outcome: Result<u64, KvWriteError>) -> (r: (LockOperation, LockAction))
        ensures
            r == Self::spec_on_created(op, outcome),
    {
        match outcome {
            Ok(_) => match op {
                LockOperation::AcquireWrite { marked: false } => (
                    LockOperation::AcquireWrite { marked: true },
                    LockAction::Read,
                ),
                _ => (op, LockAction::Finish(Ok(()))),
            },
            Err(KvWriteError::CreateError(CreateErrorKind::AlreadyExists)) => (op, LockAction::Read),
            Err(err) => (op, LockAction::Finish(Err(DistroRwLockError::UpdateFailed(err)))),
        }
    }

    /// Feed the task the outcome of the action it asked for, the time being
    /// `now`; get the task's next state and its next action.
    pub fn step(self, event: LockEvent, now: u64) -> (r: (LockTask, LockAction))
        requires
            self.accepts(event),
            !self.reader_overflow(event, now),
        ensures
            r == self.spec_step(event, now),
    {
        let (op, action) = match event {
            LockEvent::Read(read) => Self::on_read(self.op, read, now),
            LockEvent::Updated(outcome) => Self::on_updated(self.op, outcome),
            LockEvent::Created(outcome) => Self::on_created(self.op, outcome),
            LockEvent::Slept => (self.op, LockAction::Read),
        };
        let awaiting = match &action {
            LockAction::Read => LockAwaiting::Read,
            LockAction::Update { .. } => LockAwaiting::Update,
            LockAction::Create { .. } => LockAwaiting::Create,
            LockAction::Sleep { .. } => LockAwaiting::Sleep,
            LockAction::Finish(_) => LockAwaiting::Nothing,
        };
        (LockTask { op, awaiting }, action)
    }
}


/// Releasing a read lock undoes taking it: for a well-formed lock that no
/// writer holds, adding a reader and removing it again gives back the lock
/// with its acquisition time cleared (which an idle lock has already).
pub proof fn lemma_release_read_undoes_acquire_read(v: DistroRwLockValue, now: u64)
    requires
        v.well_formed(),
        v.mode != DistroRwLockMode::Write,
        v.readers < u64::MAX,
    ensures
        v.mode == DistroRwLockMode::Idle ==> v.spec_into_read_acquired_at(now).spec_into_read_released() == v,
        v.mode == DistroRwLockMode::Read ==> v.spec_into_read_acquired_at(now).spec_into_read_released() == (
        DistroRwLockValue { acquired_at: now, ..v }),
{
}

/// Releasing a write lock undoes taking it: the lock is idle again with no
/// writer waiting, which is where a fresh lock starts.
pub proof fn lemma_release_write_undoes_acquire_write(v: DistroRwLockValue, now: u64)
    ensures
        v.spec_into_write_acquired_at(now).spec_into_write_released() == DistroRwLockValue::spec_new(),
{
}

/// Every transition of the lock state keeps it well formed, as long as it
/// is applied where the lock protocol applies it.
pub proof fn lemma_transitions_keep_well_formed(v: DistroRwLockValue, now: u64, w: bool)
    requires
        v.well_formed(),
    ensures
        DistroRwLockValue::spec_new().well_formed(),
        v.mode != DistroRwLockMode::Write && v.readers < u64::MAX ==> v.spec_into_read_acquired_at(now).well_formed(),
        v.mode == DistroRwLockMode::Read ==> v.spec_into_read_released().well_formed(),
        v.spec_into_waiting(w).well_formed(),
        v.spec_into_write_acquired_at(now).well_formed(),
        v.spec_into_write_released().well_formed(),
{
}

/// Writers go first, and a writer excludes readers: while a writer waits
/// (at any time, expired lock or not), or while the lock is held for
/// writing and has not expired, a reader that reads the entry pauses and
/// writes nothing.
pub proof fn lemma_reader_waits_for_writer(task: LockTask, e: LockEntry, now: u64)
    requires
        task.op == LockOperation::AcquireRead,
        e.value.writer_waiting || (e.value.mode == DistroRwLockMode::Write && !e.value.spec_is_expired_at(now)),
    ensures
        task.spec_step(LockEvent::Read(Ok(Some(e))), now).1 == spec_blocked_pause(),
        task.spec_step(LockEvent::Read(Ok(Some(e))), now).0 == (LockTask { op: task.op, awaiting: LockAwaiting::Sleep }),
{
}

/// A writer excludes readers and other writers: while the lock is held by
/// readers or by a writer, and has not expired, a writer that has announced
/// itself and reads the entry pauses and writes nothing.
pub proof fn lemma_writer_waits_for_holders(task: LockTask, e: LockEntry, now: u64)
    requires
        task.op == (LockOperation::AcquireWrite { marked: true }),
        !e.value.spec_is_expired_at(now),
        e.value.mode == DistroRwLockMode::Write || e.value.readers > 0,
    ensures
        task.spec_step(LockEvent::Read(Ok(Some(e))), now).1 == spec_blocked_pause(),
{
}

/// Every write of the lock protocol is a compare-and-swap against the entry
/// just read: an update is only ever asked for right after a read, with the
/// revision that read returned.
pub proof fn lemma_updates_compare_revision(task: LockTask, event: LockEvent, now: u64)
    ensures
        task.spec_step(event, now).1 matches LockAction::Update { revision, .. } ==> (
            event matches LockEvent::Read(Ok(Some(e))) && e.revision == revision
        ),
{
}

/// What each operation writes: taking the read lock writes a lock held for
/// reading with the reader added (or, over an expired lock, the only
/// reader); taking the write lock writes a lock held by the writer alone;
/// releasing writes the released state; announcing a writer only sets the
/// flag.
pub proof fn lemma_written_values(task: LockTask, e: LockEntry, now: u64)
    requires
        !task.reader_overflow(LockEvent::Read(Ok(Some(e))), now),
    ensures
        ({
            let a = task.spec_step(LockEvent::Read(Ok(Some(e))), now).1;
            let v = e.value;
            a matches LockAction::Update { value, .. } ==> match task.op {
                LockOperation::AcquireRead => value.mode == DistroRwLockMode::Read
                    && value.writer_waiting == v.writer_waiting
                    && value.acquired_at == now
                    && value.readers == if v.spec_is_expired_at(now) { 1 } else { v.readers + 1 },
                LockOperation::ReleaseRead => value == v.spec_into_read_released(),
                LockOperation::SetWriterWaiting(w) => value == v.spec_into_waiting(w),
                LockOperation::AcquireWrite { marked: false } => value == v.spec_into_waiting(true),
                LockOperation::AcquireWrite { marked: true } => value == v.spec_into_write_acquired_at(now),
                LockOperation::ReleaseWrite => value == v.spec_into_write_released(),
            }
        }),
{
}

/// The lock protocol only writes well-formed lock states: when the entry
/// it read was well formed (or missing), whatever it writes or creates is
/// well formed.
pub proof fn lemma_protocol_keeps_well_formed(task: LockTask, read: Result<Option<LockEntry>, KvReadError>, now: u64)
    requires
        read matches Ok(Some(e)) ==> e.value.well_formed(),
        !task.reader_overflow(LockEvent::Read(read), now),
    ensures
        ({
            let a = task.spec_step(LockEvent::Read(read), now).1;
            &&& a matches LockAction::Update { value, .. } ==> value.well_formed()
            &&& a matches LockAction::Create { value } ==> value.well_formed()
        }),
{
}

/// Releasing a lock that is not held in the matching mode fails with
/// `AlreadyReleased` and writes nothing.
pub proof fn lemma_release_of_unheld_lock(task: LockTask, e: LockEntry, now: u64)
    ensures
        task.op == LockOperation::ReleaseRead && (e.value.mode != DistroRwLockMode::Read || e.value.readers == 0)
            ==> task.spec_step(LockEvent::Read(Ok(Some(e))), now).1
                == LockAction::Finish(Err(DistroRwLockError::AlreadyReleased)),
        task.op == LockOperation::ReleaseWrite && e.value.mode != DistroRwLockMode::Write
            ==> task.spec_step(LockEvent::Read(Ok(Some(e))), now).1
                == LockAction::Finish(Err(DistroRwLockError::AlreadyReleased)),
{
}

impl LockTask {
    /// The task is in a state the lock protocol can reach: only a reader,
    /// the flag setter and a writer not yet announced wait for the creation
    /// of the entry.
    pub open spec fn in_protocol(self) -> bool {
        self.awaiting == LockAwaiting::Create ==> {
            ||| self.op == LockOperation::AcquireRead
            ||| self.op is SetWriterWaiting
            ||| self.op == (LockOperation::AcquireWrite { marked: false })
        }
    }
}

/// Every task starts in the protocol, and every step keeps it there,
/// whatever the event and the time.
pub proof fn lemma_steps_stay_in_protocol(op: LockOperation, task: LockTask, event: LockEvent, now: u64)
    ensures
        (LockTask { op, awaiting: LockAwaiting::Read }).in_protocol(),
        task.spec_step(event, now).0.in_protocol(),
{
}

/// A writer holds the lock only once it has written it. An acquire-write
/// task succeeds only on the success of an update made after it announced
/// itself, and the only update it then asks for puts the lock in write mode,
/// held by it alone since `now`: no reader, no writer waiting. Creating the
/// missing entry never ends the task: the writer goes on to read the entry
/// and take the lock.
pub proof fn lemma_write_lock_held_only_after_written(task: LockTask, event: LockEvent, now: u64)
    requires
        task.op is AcquireWrite,
        task.in_protocol(),
        task.accepts(event),
    ensures
        task.spec_step(event, now).1 == LockAction::Finish(Ok(())) ==> {
            &&& task.op == (LockOperation::AcquireWrite { marked: true })
            &&& event matches LockEvent::Updated(Ok(Some(_)))
        },
        event matches LockEvent::Created(Ok(_)) ==> task.spec_step(event, now) == (
            LockTask { op: LockOperation::AcquireWrite { marked: true }, awaiting: LockAwaiting::Read },
            LockAction::Read,
        ),
        task.op == (LockOperation::AcquireWrite { marked: true }) ==> (
            task.spec_step(event, now).1 matches LockAction::Update { value, .. } ==> {
                &&& value.mode == DistroRwLockMode::Write
                &&& value.readers == 0
                &&& !value.writer_waiting
                &&& value.acquired_at == now
            }
        ),
        task.op == (LockOperation::AcquireWrite { marked: true }) && (event matches LockEvent::Updated(Ok(Some(_))))
            ==> task.spec_step(event, now).1 == LockAction::Finish(Ok(())),
{
}

/// Every lock operation succeeds only once its write went through: a task
/// finishes with success only on the success of an update it asked for, or
/// of the creation of the missing entry by a reader or by the flag setter;
/// the one exception is setting the writer-waiting flag to what the entry
/// already has, which needs no write. A reader that creates the entry
/// creates it held for reading by itself alone since `now`; a writer that
/// creates it creates it idle with the writer waiting.
pub proof fn lemma_success_only_after_write(task: LockTask, event: LockEvent, now: u64)
    requires
        task.in_protocol(),
        task.accepts(event),
    ensures
        task.spec_step(event, now).1 == LockAction::Finish(Ok(())) ==> {
            ||| event matches LockEvent::Updated(Ok(Some(_)))
            ||| (event is Created && (task.op == LockOperation::AcquireRead || task.op is SetWriterWaiting))
            ||| (task.op matches LockOperation::SetWriterWaiting(w)
                && (event matches LockEvent::Read(Ok(Some(e))) && e.value.writer_waiting == w))
        },
        task.spec_step(event, now).1 matches LockAction::Create { value } ==> match task.op {
            LockOperation::AcquireRead => value == (DistroRwLockValue {
                mode: DistroRwLockMode::Read,
                readers: 1,
                writer_waiting: false,
                acquired_at: now,
            }),
            LockOperation::AcquireWrite { .. } => value == (DistroRwLockValue {
                mode: DistroRwLockMode::Idle,
                readers: 0,
                writer_waiting: true,
                acquired_at: 0,
            }),
            LockOperation::SetWriterWaiting(w) => value == DistroRwLockValue::spec_new().spec_into_waiting(w),
            _ => false,
        },
{
}

/// Why running a processor under the lock failed.
#[derive(Debug, Clone, PartialEq, Eq)]
pub enum WithLockProcessError {
    /// Taking the lock failed; the processor did not run.
    FailOnAcquire(DistroRwLockError),
    /// Letting go of the lock failed; the processor's output is dropped.
    FailOnRelease(DistroRwLockError),
}

/// Whether a processor guarded by the lock may run, once taking the lock
/// gave `acquired`: only when the lock was taken.
pub fn guard_acquired(acquired: Result<(), DistroRwLockError>) -> (r: Result<(), WithLockProcessError>)
    ensures
        match acquired {
            Ok(()) => r == Ok::<(), WithLockProcessError>(()),
            Err(e) => r == Err::<(), WithLockProcessError>(WithLockProcessError::FailOnAcquire(e)),
        },
{
    match acquired {
        Ok(()) => Ok(()),
        Err(e) => Err(WithLockProcessError::FailOnAcquire(e)),
    }
}

/// The result of a processor guarded by the lock, once it gave `output`
/// and letting go of the lock gave `released`: the output, unless the lock
/// could not be let go of.
pub fn guard_released<O>(released: Result<(), DistroRwLockError>, output: O) -> (r: Result<O, WithLockProcessError>)
    ensures
        match released {
            Ok(()) => r == Ok::<O, WithLockProcessError>(output),
            Err(e) => r == Err::<O, WithLockProcessError>(WithLockProcessError::FailOnRelease(e)),
        },
{
    match released {
        Ok(()) => Ok(output),
        Err(e) => Err(WithLockProcessError::FailOnRelease(e)),
    }
}

} // verus!
