//! Values kept in a NATS key-value bucket.
//!
//! The bucket itself is reached by the caller; this module states how the
//! outcome of each bucket operation is read.

use crate::error::{DeserializeError, SerializeError};
use crate::message::{ByteDeserialize, ByteSerialize};
use vstd::prelude::*;

pub mod atomic_opt;
pub mod election;
pub mod frame_lock;
pub mod rw_lock;

verus! {

/// Why reading an entry from the bucket failed.
#[derive(Debug, Clone, Copy, PartialEq, Eq, Structural)]
pub enum EntryErrorKind {
    /// The key is empty or starts or ends with `.`.
    InvalidKey,
    /// The request timed out.
    TimedOut,
    /// Any other failure.
    Other,
}

/// Why an update with an expected revision failed.
#[derive(Debug, Clone, Copy, PartialEq, Eq, Structural)]
pub enum UpdateErrorKind {
    /// The key is empty or starts or ends with `.`.
    InvalidKey,
    /// The request timed out.
    TimedOut,
    /// The entry was changed since the expected revision.
    WrongLastRevision,
    /// Any other failure.
    Other,
}

/// Why creating an entry failed.
#[derive(Debug, Clone, Copy, PartialEq, Eq, Structural)]
pub enum CreateErrorKind {
    /// The entry exists already.
    AlreadyExists,
    /// The key is empty or starts or ends with `.`.
    InvalidKey,
    /// Publishing the value failed.
    Publish,
    /// The acknowledgement failed.
    Ack,
    /// Any other failure.
    Other,
}

/// Error when reading from the bucket; `D` is the error of decoding the
/// value.
#[derive(Debug, Clone, PartialEq, Eq)]
pub enum KvReadError<D = DeserializeError> {
    /// The bucket could not be read.
    EntryError(EntryErrorKind),
    /// The stored bytes could not be decoded.
    DeserializeError(D),
}

/// Error when writing to the bucket; `S` is the error of encoding the
/// value.
#[derive(Debug, Clone, PartialEq, Eq)]
pub enum KvWriteError<S = SerializeError> {
    /// An update with an expected revision failed for a reason other than a
    /// changed revision.
    UpdateError(UpdateErrorKind),
    /// An unconditional write failed; holds the failure's description.
    PutError(String),
    /// Creating the entry failed.
    CreateError(CreateErrorKind),
    /// The value could not be encoded.
    SerializeError(S),
}

/// What an update with an expected revision means to the writer: the new
/// revision, `None` when somebody else changed the entry first, or the
/// error.
pub open spec fn spec_update_outcome<S>(outcome: Result<u64, UpdateErrorKind>) -> Result<Option<u64>, KvWriteError<S>> {
    match outcome {
        Ok(revision) => Ok(Some(revision)),
        Err(UpdateErrorKind::WrongLastRevision) => Ok(None),
        Err(kind) => Err(KvWriteError::UpdateError(kind)),
    }
}

/// Reads the bucket's answer to an update with an expected revision: a
/// changed revision is no error but `Ok(None)`, the signal to read again.
pub fn update_outcome<S>(outcome: Result<u64, UpdateErrorKind>) -> (r: Result<Option<u64>, KvWriteError<S>>)
    ensures
        r == spec_update_outcome::<S>(outcome),
{
    match outcome {
        Ok(revision) => Ok(Some(revision)),
        Err(UpdateErrorKind::WrongLastRevision) => Ok(None),
        Err(kind) => Err(KvWriteError::UpdateError(kind)),
    }
}

/// A value of the bucket whose key is fixed.
pub trait StaticKeyIndexedValue {
    /// The key of the value.
    fn key() -> String;
}

/// A value of the bucket together with its key.
pub trait KeyValue: Sized {
    /// The key type.
    type Key;
    /// The value type.
    type Value;

    /// The key of the pair.
    fn key(&self) -> Self::Key;

    /// A copy of the value.
    fn value(&self) -> Self::Value;

    /// The value, consuming the pair.
    fn into_value(self) -> Self::Value;

    /// Pair a key with a value.
    fn new(key: Self::Key, value: Self::Value) -> Self;
}

/// The kind of operation that made an entry.
#[derive(Debug, Clone, Copy, PartialEq, Eq, Structural)]
pub enum KvOperation {
    /// A value was put.
    Put,
    /// The value was deleted.
    Delete,
    /// The history was purged.
    Purge,
}

/// An entry as the bucket returns it, with the value still encoded.
#[derive(Debug)]
pub struct RawKvEntry {
    /// The name of the bucket.
    pub bucket: String,
    /// The key.
    pub key: String,
    /// The encoded value.
    pub value: Vec<u8>,
    /// The revision of the entry.
    pub revision: u64,
    /// The distance from the latest value.
    pub delta: u64,
    /// When the value was put, in nanoseconds since the UNIX epoch.
    pub created_at: i128,
    /// The operation that made the entry.
    pub operation: KvOperation,
    /// Whether all history was received, so that this entry is a new one.
    pub seen_current: bool,
}

/// An entry of the bucket with its decoded value, as returned by an atomic
/// or a history read.
#[derive(Debug)]
pub struct KvEntry<V> {
    /// The name of the bucket.
    pub bucket: String,
    /// The key.
    pub key: String,
    /// The value.
    pub value: V,
    /// The revision of the entry.
    pub revision: u64,
    /// The distance from the latest value.
    pub delta: u64,
    /// When the value was put, in nanoseconds since the UNIX epoch.
    pub created_at: i128,
    /// The operation that made the entry.
    pub operation: KvOperation,
    /// Whether all history was received, so that this entry is a new one.
    pub seen_current: bool,
}

/// The entry with its value decoded, or the decoding error.
pub open spec fn spec_decode_entry<V: ByteDeserialize>(raw: RawKvEntry) -> Result<KvEntry<V>, V::DeError> {
    match V::spec_deserialized(raw.value@) {
        Ok(value) => Ok(KvEntry {
            bucket: raw.bucket,
            key: raw.key,
            value,
            revision: raw.revision,
            delta: raw.delta,
            created_at: raw.created_at,
            operation: raw.operation,
            seen_current: raw.seen_current,
        }),
        Err(e) => Err(e),
    }
}

impl<V: ByteDeserialize> KvEntry<V> {
    /// Decode the value of an entry the bucket returned; every other field
    /// is kept.
    pub fn try_from_raw(raw: RawKvEntry) -> (r: Result<Self, V::DeError>)
        ensures
            r == spec_decode_entry::<V>(raw),
    {
        match V::parse_from_bytes(raw.value.as_slice()) {
            Ok(value) => Ok(KvEntry {
                bucket: raw.bucket,
                key: raw.key,
                value,
                revision: raw.revision,
                delta: raw.delta,
                created_at: raw.created_at,
                operation: raw.operation,
                seen_current: raw.seen_current,
            }),
            Err(e) => Err(e),
        }
    }
}

/// What an atomic read means: the decoded entry if there is one, or why
/// the read failed.
pub open spec fn spec_read_entry<V: ByteDeserialize>(raw: Result<Option<RawKvEntry>, EntryErrorKind>) -> Result<Option<KvEntry<V>>, KvReadError<V::DeError>> {
    match raw {
        Err(kind) => Err(KvReadError::EntryError(kind)),
        Ok(None) => Ok(None),
        Ok(Some(entry)) => match spec_decode_entry::<V>(entry) {
            Ok(e) => Ok(Some(e)),
            Err(d) => Err(KvReadError::DeserializeError(d)),
        },
    }
}

/// Read the bucket's answer to an atomic read (the latest entry of a key)
/// or a history read (the entry of a given revision).
pub fn read_entry<V: ByteDeserialize>(raw: Result<Option<RawKvEntry>, EntryErrorKind>) -> (r: Result<Option<KvEntry<V>>, KvReadError<V::DeError>>)
    ensures
        r == spec_read_entry::<V>(raw),
{
    match raw {
        Err(kind) => Err(KvReadError::EntryError(kind)),
        Ok(None) => Ok(None),
        Ok(Some(entry)) => match KvEntry::<V>::try_from_raw(entry) {
            Ok(e) => Ok(Some(e)),
            Err(d) => Err(KvReadError::DeserializeError(d)),
        },
    }
}

/// What a plain read means: the decoded value if there is one, or why the
/// read failed.
pub open spec fn spec_read_value<V: ByteDeserialize>(raw: Result<Option<Seq<u8>>, EntryErrorKind>) -> Result<Option<V>, KvReadError<V::DeError>> {
    match raw {
        Err(kind) => Err(KvReadError::EntryError(kind)),
        Ok(None) => Ok(None),
        Ok(Some(bytes)) => match V::spec_deserialized(bytes) {
            Ok(v) => Ok(Some(v)),
            Err(d) => Err(KvReadError::DeserializeError(d)),
        },
    }
}

/// Read the bucket's answer to a plain read of a key.
pub fn read_value<V: ByteDeserialize>(raw: Result<Option<Vec<u8>>, EntryErrorKind>) -> (r: Result<Option<V>, KvReadError<V::DeError>>)
    ensures
        r == spec_read_value::<V>(match raw {
            Ok(Some(b)) => Ok(Some(b@)),
            Ok(None) => Ok(None),
            Err(k) => Err(k),
        }),
{
    match raw {
        Err(kind) => Err(KvReadError::EntryError(kind)),
        Ok(None) => Ok(None),
        Ok(Some(bytes)) => match V::parse_from_bytes(bytes.as_slice()) {
            Ok(v) => Ok(Some(v)),
            Err(d) => Err(KvReadError::DeserializeError(d)),
        },
    }
}

/// Encode a value before writing it to the bucket.
pub fn encode_for_write<V: ByteSerialize>(value: &V) -> (r: Result<Vec<u8>, KvWriteError<V::SerError>>)
    ensures
        match (r, value.spec_serialized()) {
            (Ok(b), Ok(s)) => b@ == s,
            (Err(KvWriteError::SerializeError(e)), Err(f)) => e == f,
            _ => false,
        },
{
    match value.to_bytes() {
        Ok(bytes) => Ok(bytes),
        Err(e) => Err(KvWriteError::SerializeError(e)),
    }
}

/// Read the bucket's answer to creating an entry: the new revision, or the
/// error.
pub fn create_outcome<S>(outcome: Result<u64, CreateErrorKind>) -> (r: Result<u64, KvWriteError<S>>)
    ensures
        match outcome {
            Ok(revision) => r == Ok::<u64, KvWriteError<S>>(revision),
            Err(kind) => r == Err::<u64, KvWriteError<S>>(KvWriteError::CreateError(kind)),
        },
{
    match outcome {
        Ok(revision) => Ok(revision),
        Err(kind) => Err(KvWriteError::CreateError(kind)),
    }
}

} // verus!
