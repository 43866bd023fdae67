//! A read-write lock whose state is stored as a nine-byte frame: one state
//! byte, then the reader count in big-endian order.
//!
//! The state byte holds the writer-waiting flag in bit 2 and the mode in
//! bits 0 and 1: `0b000` idle, `0b001` read, `0b010` write, and the same
//! with bit 2 set when a writer waits.

use crate::kv::{KeyValue, KvReadError, KvWriteError};
use crate::message::{ByteDeserialize, ByteSerialize};
use vstd::prelude::*;

pub use crate::kv::rw_lock::{DistroRwLockMode, DistroRwLockSerErr};

verus! {

/// The state of a frame-stored [`DistroRwLock`].
#[derive(Debug, Clone, Copy, PartialEq, Eq, Structural)]
pub struct DistroRwLockValue {
    /// The current mode of the lock.
    pub mode: DistroRwLockMode,
    /// The number of readers.
    pub readers: u64,
    /// Whether a writer is waiting.
    pub writer_waiting: bool,
}

impl Default for DistroRwLockValue {
    fn default() -> (r: Self)
        ensures
            r == DistroRwLockValue::spec_new(),
    {
        DistroRwLockValue { mode: DistroRwLockMode::Idle, readers: 0, writer_waiting: false }
    }
}

/// Error when decoding a lock frame, or when acquiring the lock.
#[derive(Debug, PartialEq, Eq)]
pub enum DistroRwLockAcquireError {
    /// The frame is not 9 bytes long.
    InvalidByteLength,
    /// The state byte is not one of `0b000`, `0b001`, `0b010`, `0b100`,
    /// `0b101`, `0b110`.
    BadByteValue,
    /// Reading the lock failed.
    ReadFailed(KvReadError),
    /// Writing the lock failed.
    UpdateFailed(KvWriteError),
}

/// The number of bytes of a lock frame.
pub const FRAME_LEN: usize = 9;

/// The state byte of a lock.
pub open spec fn spec_state_byte(writer_waiting: bool, mode: DistroRwLockMode) -> u8 {
    let m: u8 = match mode {
        DistroRwLockMode::Idle => 0,
        DistroRwLockMode::Read => 1,
        DistroRwLockMode::Write => 2,
    };
    if writer_waiting {
        (m + 4) as u8
    } else {
        m
    }
}

/// The byte of `x` that sits `shift` bits up.
pub open spec fn be_byte(x: u64, shift: u64) -> u8 {
    ((x >> shift) & 0xff) as u8
}

/// The eight bytes of `x`, most significant first.
pub open spec fn spec_u64_be(x: u64) -> Seq<u8> {
    seq![
        be_byte(x, 56),
        be_byte(x, 48),
        be_byte(x, 40),
        be_byte(x, 32),
        be_byte(x, 24),
        be_byte(x, 16),
        be_byte(x, 8),
        be_byte(x, 0),
    ]
}

/// The number whose bytes, most significant first, are `b0` to `b7`.
pub open spec fn from_be8(b0: u8, b1: u8, b2: u8, b3: u8, b4: u8, b5: u8, b6: u8, b7: u8) -> u64 {
    ((b0 as u64) << 56u64) | ((b1 as u64) << 48u64) | ((b2 as u64) << 40u64) | ((b3 as u64) << 32u64)
        | ((b4 as u64) << 24u64) | ((b5 as u64) << 16u64) | ((b6 as u64) << 8u64) | (b7 as u64)
}

/// The number whose bytes, most significant first, are the eight bytes of
/// `b` from index `start` on.
pub open spec fn spec_u64_from_be(b: Seq<u8>, start: int) -> u64 {
    from_be8(b[start], b[start + 1], b[start + 2], b[start + 3], b[start + 4], b[start + 5], b[start + 6], b[start + 7])
}

/// The mode and writer flag that a state byte stands for, if any.
pub open spec fn spec_decode_state(b: u8) -> Option<(bool, DistroRwLockMode)> {
    if b == 0 {
        Some((false, DistroRwLockMode::Idle))
    } else if b == 1 {
        Some((false, DistroRwLockMode::Read))
    } else if b == 2 {
        Some((false, DistroRwLockMode::Write))
    } else if b == 4 {
        Some((true, DistroRwLockMode::Idle))
    } else if b == 5 {
        Some((true, DistroRwLockMode::Read))
    } else if b == 6 {
        Some((true, DistroRwLockMode::Write))
    } else {
        None
    }
}

/// Splitting a number into big-endian bytes and joining them again gives
/// the number back.
pub proof fn lemma_be_join_split(x: u64)
    ensures
        from_be8(
            be_byte(x, 56),
            be_byte(x, 48),
            be_byte(x, 40),
            be_byte(x, 32),
            be_byte(x, 24),
            be_byte(x, 16),
            be_byte(x, 8),
            be_byte(x, 0),
        ) == x,
{
    assert(from_be8(
        be_byte(x, 56),
        be_byte(x, 48),
        be_byte(x, 40),
        be_byte(x, 32),
        be_byte(x, 24),
        be_byte(x, 16),
        be_byte(x, 8),
        be_byte(x, 0),
    ) == x) by (bit_vector);
}

/// Joining eight bytes into a number and splitting it again gives the
/// bytes back.
pub proof fn lemma_be_split_join(b0: u8, b1: u8, b2: u8, b3: u8, b4: u8, b5: u8, b6: u8, b7: u8)
    ensures
        be_byte(from_be8(b0, b1, b2, b3, b4, b5, b6, b7), 56) == b0,
        be_byte(from_be8(b0, b1, b2, b3, b4, b5, b6, b7), 48) == b1,
        be_byte(from_be8(b0, b1, b2, b3, b4, b5, b6, b7), 40) == b2,
        be_byte(from_be8(b0, b1, b2, b3, b4, b5, b6, b7), 32) == b3,
        be_byte(from_be8(b0, b1, b2, b3, b4, b5, b6, b7), 24) == b4,
        be_byte(from_be8(b0, b1, b2, b3, b4, b5, b6, b7), 16) == b5,
        be_byte(from_be8(b0, b1, b2, b3, b4, b5, b6, b7), 8) == b6,
        be_byte(from_be8(b0, b1, b2, b3, b4, b5, b6, b7), 0) == b7,
{
    assert(be_byte(from_be8(b0, b1, b2, b3, b4, b5, b6, b7), 56) == b0) by (bit_vector);
    assert(be_byte(from_be8(b0, b1, b2, b3, b4, b5, b6, b7), 48) == b1) by (bit_vector);
    assert(be_byte(from_be8(b0, b1, b2, b3, b4, b5, b6, b7), 40) == b2) by (bit_vector);
    assert(be_byte(from_be8(b0, b1, b2, b3, b4, b5, b6, b7), 32) == b3) by (bit_vector);
    assert(be_byte(from_be8(b0, b1, b2, b3, b4, b5, b6, b7), 24) == b4) by (bit_vector);
    assert(be_byte(from_be8(b0, b1, b2, b3, b4, b5, b6, b7), 16) == b5) by (bit_vector);
    assert(be_byte(from_be8(b0, b1, b2, b3, b4, b5, b6, b7), 8) == b6) by (bit_vector);
    assert(be_byte(from_be8(b0, b1, b2, b3, b4, b5, b6, b7), 0) == b7) by (bit_vector);
}

impl DistroRwLockValue {
    /// A lock that nobody holds and no writer waits for.
    pub open spec fn spec_new() -> Self {
        DistroRwLockValue { mode: DistroRwLockMode::Idle, readers: 0, writer_waiting: false }
    }

    /// The frame of the lock: the state byte, then the reader count in
    /// big-endian order.
    pub open spec fn spec_to_bytes(self) -> Seq<u8> {
        seq![spec_state_byte(self.writer_waiting, self.mode)] + spec_u64_be(self.readers)
    }

    /// The lock that a frame stands for, or why it stands for none.
    pub open spec fn spec_parse_from_bytes(bytes: Seq<u8>) -> Result<Self, DistroRwLockAcquireError> {
        if bytes.len() != 9 {
            Err(DistroRwLockAcquireError::InvalidByteLength)
        } else {
            match spec_decode_state(bytes[0]) {
                None => Err(DistroRwLockAcquireError::BadByteValue),
                Some((writer_waiting, mode)) => Ok(DistroRwLockValue {
                    mode,
                    readers: spec_u64_from_be(bytes, 1),
                    writer_waiting,
                }),
            }
        }
    }

    /// The lock after one more reader took it.
    pub open spec fn spec_into_read_acquired(self) -> Self {
        DistroRwLockValue {
            mode: DistroRwLockMode::Read,
            readers: (self.readers + 1) as u64,
            writer_waiting: self.writer_waiting,
        }
    }

    /// Create a new lock: idle, no readers, no writer waiting.
    pub fn new() -> (r: Self)
        ensures
            r == Self::spec_new(),
    {
        Self::default()
    }

    /// Add a reader, taking the lock for reading.
    pub fn into_read_acquired(self) -> (r: Self)
        requires
            self.readers < u64::MAX,
        ensures
            r == self.spec_into_read_acquired(),
    {
        DistroRwLockValue {
            mode: DistroRwLockMode::Read,
            readers: self.readers + 1,
            writer_waiting: self.writer_waiting,
        }
    }
}

impl ByteSerialize for DistroRwLockValue {
    type SerError = DistroRwLockSerErr;

    open spec fn spec_serialized(&self) -> Result<Seq<u8>, DistroRwLockSerErr> {
        Ok(self.spec_to_bytes())
    }

    /// Encode the lock as its nine-byte frame. Never fails.
    fn to_bytes(&self) -> (r: Result<Vec<u8>, DistroRwLockSerErr>)
        ensures
            r matches Ok(bytes) && bytes@ == self.spec_to_bytes(),
    {
        let state: u8 = match (self.writer_waiting, self.mode) {
            (false, DistroRwLockMode::Idle) => 0b000,
            (false, DistroRwLockMode::Read) => 0b001,
            (false, DistroRwLockMode::Write) => 0b010,
            (true, DistroRwLockMode::Idle) => 0b100,
            (true, DistroRwLockMode::Read) => 0b101,
            (true, DistroRwLockMode::Write) => 0b110,
        };
        let x = self.readers;
        let mut bytes: Vec<u8> = Vec::new();
        bytes.push(state);
        bytes.push(((x >> 56u64) & 0xff) as u8);
        bytes.push(((x >> 48u64) & 0xff) as u8);
        bytes.push(((x >> 40u64) & 0xff) as u8);
        bytes.push(((x >> 32u64) & 0xff) as u8);
        bytes.push(((x >> 24u64) & 0xff) as u8);
        bytes.push(((x >> 16u64) & 0xff) as u8);
        bytes.push(((x >> 8u64) & 0xff) as u8);
        bytes.push((x & 0xff) as u8);
        proof {
            assert(x == (x >> 0u64)) by (bit_vector);
            assert(bytes@ =~= self.spec_to_bytes());
        }
        Ok(bytes)
    }
}

impl ByteDeserialize for DistroRwLockValue {
    type DeError = DistroRwLockAcquireError;

    open spec fn spec_deserialized(bytes: Seq<u8>) -> Result<Self, DistroRwLockAcquireError> {
        Self::spec_parse_from_bytes(bytes)
    }

    /// Decode a nine-byte frame.
    fn parse_from_bytes(bytes: &[u8]) -> (r: Result<Self, DistroRwLockAcquireError>)
        ensures
            r == Self::spec_parse_from_bytes(bytes@),
    {
        if bytes.len() != FRAME_LEN {
            return Err(DistroRwLockAcquireError::InvalidByteLength);
        }
        let state = bytes[0];
        let (writer_waiting, mode) = match state {
            0b000 => (false, DistroRwLockMode::Idle),
            0b001 => (false, DistroRwLockMode::Read),
            0b010 => (false, DistroRwLockMode::Write),
            0b100 => (true, DistroRwLockMode::Idle),
            0b101 => (true, DistroRwLockMode::Read),
            0b110 => (true, DistroRwLockMode::Write),
            _ => return Err(DistroRwLockAcquireError::BadByteValue),
        };
        let readers: u64 = ((bytes[1] as u64) << 56u64) | ((bytes[2] as u64) << 48u64)
            | ((bytes[3] as u64) << 40u64) | ((bytes[4] as u64) << 32u64)
            | ((bytes[5] as u64) << 24u64) | ((bytes[6] as u64) << 16u64)
            | ((bytes[7] as u64) << 8u64) | (bytes[8] as u64);
        Ok(DistroRwLockValue { mode, readers, writer_waiting })
    }
}

/// Decoding the frame of a lock gives the lock back.
pub proof fn lemma_frame_round_trip(v: DistroRwLockValue)
    ensures
        DistroRwLockValue::spec_parse_from_bytes(v.spec_to_bytes()) == Ok::<DistroRwLockValue, DistroRwLockAcquireError>(v),
{
    lemma_be_join_split(v.readers);
    let b = v.spec_to_bytes();
    assert(b.len() == 9);
    assert(spec_u64_from_be(b, 1) == v.readers);
}

/// Every frame that decodes is the frame of the lock it decodes to: the
/// encoding is a one-to-one correspondence between lock states and the
/// valid frames.
pub proof fn lemma_frame_canonical(bytes: Seq<u8>)
    requires
        DistroRwLockValue::spec_parse_from_bytes(bytes) is Ok,
    ensures
        DistroRwLockValue::spec_parse_from_bytes(bytes)->Ok_0.spec_to_bytes() == bytes,
{
    let v = DistroRwLockValue::spec_parse_from_bytes(bytes)->Ok_0;
    lemma_be_split_join(bytes[1], bytes[2], bytes[3], bytes[4], bytes[5], bytes[6], bytes[7], bytes[8]);
    assert(v.spec_to_bytes() =~= bytes);
}

/// A distributed read-write lock stored as a frame: the key of its entry
/// and its state.
#[derive(Debug, Clone)]
pub struct DistroRwLock {
    key: String,
    value: DistroRwLockValue,
}

/// The lock entry as read from the bucket, with its revision.
#[derive(Debug, Clone, Copy, PartialEq, Eq, Structural)]
pub struct FrameLockEntry {
    /// The decoded lock state.
    pub value: DistroRwLockValue,
    /// The revision of the entry.
    pub revision: u64,
}

/// The outcome of the bucket operation that acquiring the lock asked for.
#[derive(Debug, PartialEq, Eq)]
pub enum FrameLockEvent {
    /// The outcome of a read: the entry, if there is one.
    Read(Result<Option<FrameLockEntry>, KvReadError>),
    /// The outcome of an update: the new revision, or `None` when the
    /// entry had changed.
    Updated(Result<Option<u64>, KvWriteError>),
    /// The pause is over.
    Slept,
}

/// What acquiring the lock asks for next, or its result.
#[derive(Debug, PartialEq, Eq)]
pub enum FrameLockAction {
    /// Read the lock entry.
    Read,
    /// Write `value` if the entry still has `revision`.
    Update { value: DistroRwLockValue, revision: u64 },
    /// Pause for `millis` milliseconds.
    Sleep { millis: u64 },
    /// The acquisition is over, with this result.
    Finish(Result<bool, DistroRwLockAcquireError>),
}

impl DistroRwLock {
    /// The key of the entry.
    pub closed spec fn spec_key(&self) -> Seq<char> {
        self.key@
    }

    /// The state of the lock.
    pub closed spec fn spec_value(&self) -> DistroRwLockValue {
        self.value
    }

    /// Taking one more reader would overflow the reader count.
    pub open spec fn reader_overflow(event: FrameLockEvent) -> bool {
        &&& event matches FrameLockEvent::Read(Ok(Some(e)))
        &&& e.value.mode != DistroRwLockMode::Write
        &&& !e.value.writer_waiting
        &&& e.value.readers == u64::MAX
    }

    /// What acquiring the read lock does after `event`: a read error ends
    /// it; a missing entry is read again; a lock held by a writer, or with
    /// a writer waiting, is read again after 100 ms; otherwise the reader is
    /// added with a compare-and-swap. A lost race is retried after 50 ms.
    pub open spec fn spec_acquire_read_step(event: FrameLockEvent) -> FrameLockAction {
        match event {
            FrameLockEvent::Read(Err(err)) => FrameLockAction::Finish(Err(DistroRwLockAcquireError::ReadFailed(err))),
            FrameLockEvent::Read(Ok(None)) => FrameLockAction::Read,
            FrameLockEvent::Read(Ok(Some(e))) => if e.value.mode == DistroRwLockMode::Write || e.value.writer_waiting {
                FrameLockAction::Sleep { millis: 100 }
            } else {
                FrameLockAction::Update { value: e.value.spec_into_read_acquired(), revision: e.revision }
            },
            FrameLockEvent::Updated(Ok(Some(_))) => FrameLockAction::Finish(Ok(true)),
            FrameLockEvent::Updated(Ok(None)) => FrameLockAction::Sleep { millis: 50 },
            FrameLockEvent::Updated(Err(err)) => FrameLockAction::Finish(Err(DistroRwLockAcquireError::UpdateFailed(err))),
            FrameLockEvent::Slept => FrameLockAction::Read,
        }
    }

    /// Acquiring the read lock starts by reading the entry.
    pub fn acquire_read_begin() -> (a: FrameLockAction)
        ensures
            a == FrameLockAction::Read,
    {
        FrameLockAction::Read
    }

    /// Whether taking one more reader would overflow the reader count.
    pub fn would_overflow(event: &FrameLockEvent) -> (b: bool)
        ensures
            b == Self::reader_overflow(*event),
    {
        match event {
            FrameLockEvent::Read(Ok(Some(e))) => e.value.mode != DistroRwLockMode::Write
                && !e.value.writer_waiting && e.value.readers == u64::MAX,
            _ => false,
        }
    }

    /// Feed the acquisition of the read lock the outcome of what it asked
    /// for; get what it asks for next.
    pub fn acquire_read_step(event: FrameLockEvent) -> (a: FrameLockAction)
        requires
            !Self::reader_overflow(event),
        ensures
            a == Self::spec_acquire_read_step(event),
    {
        match event {
            FrameLockEvent::Read(Err(err)) => FrameLockAction::Finish(Err(DistroRwLockAcquireError::ReadFailed(err))),
            FrameLockEvent::Read(Ok(None)) => FrameLockAction::Read,
            FrameLockEvent::Read(Ok(Some(e))) => if e.value.mode == DistroRwLockMode::Write || e.value.writer_waiting {
                FrameLockAction::Sleep { millis: 100 }
            } else {
                FrameLockAction::Update { value: e.value.into_read_acquired(), revision: e.revision }
            },
            FrameLockEvent::Updated(Ok(Some(_))) => FrameLockAction::Finish(Ok(true)),
            FrameLockEvent::Updated(Ok(None)) => FrameLockAction::Sleep { millis: 50 },
            FrameLockEvent::Updated(Err(err)) => FrameLockAction::Finish(Err(DistroRwLockAcquireError::UpdateFailed(err))),
            FrameLockEvent::Slept => FrameLockAction::Read,
        }
    }
}

impl KeyValue for DistroRwLock {
    type Key = String;
    type Value = DistroRwLockValue;

    /// The key of the entry.
    fn key(&self) -> (k: String)
        ensures
            k@ == self.spec_key(),
    {
        self.key.clone()
    }

    /// The state of the lock.
    fn value(&self) -> (v: DistroRwLockValue)
        ensures
            v == self.spec_value(),
    {
        self.value
    }

    /// The state of the lock, consuming the pair.
    fn into_value(self) -> (v: DistroRwLockValue)
        ensures
            v == self.spec_value(),
    {
        self.value
    }

    /// Pair a key with a lock state.
    fn new(key: String, value: DistroRwLockValue) -> (r: Self)
        ensures
            r.spec_key() == key@,
            r.spec_value() == value,
    {
        DistroRwLock { key, value }
    }
}

/// Writers go first: while a writer holds the frame-stored lock or waits
/// for it, a reader that reads the entry pauses and writes nothing; when it
/// does write, it writes the lock held for reading with itself added, at
/// the revision it read.
pub proof fn lemma_frame_reader_waits_for_writer(e: FrameLockEntry)
    requires
        e.value.readers < u64::MAX,
    ensures
        (e.value.mode == DistroRwLockMode::Write || e.value.writer_waiting)
            ==> DistroRwLock::spec_acquire_read_step(FrameLockEvent::Read(Ok(Some(e)))) == (FrameLockAction::Sleep { millis: 100 }),
        !(e.value.mode == DistroRwLockMode::Write || e.value.writer_waiting)
            ==> DistroRwLock::spec_acquire_read_step(FrameLockEvent::Read(Ok(Some(e)))) == (FrameLockAction::Update {
                value: DistroRwLockValue { mode: DistroRwLockMode::Read, readers: (e.value.readers + 1) as u64, writer_waiting: false },
                revision: e.revision,
            }),
{
}

/// The read lock is held only once the reader's write went through:
/// acquiring it ends in success only on the success of the update it asked
/// for, and a success always reports the lock as taken.
pub proof fn lemma_frame_read_lock_only_after_write(event: FrameLockEvent)
    ensures
        DistroRwLock::spec_acquire_read_step(event) matches FrameLockAction::Finish(Ok(taken)) ==> {
            &&& taken
            &&& event matches FrameLockEvent::Updated(Ok(Some(_)))
        },
{
}

} // verus!
