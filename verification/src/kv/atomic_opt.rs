//! Atomic read-modify-write of one entry of a key-value bucket.
//!
//! The entry is read with its revision, transformed by the caller's
//! operation, and written back only if its revision is unchanged. The
//! attempts are bounded by a retry count, or unbounded.

use crate::kv::{KvReadError, KvWriteError};
use vstd::prelude::*;

verus! {

/// Error of an atomic operation.
#[derive(Debug, PartialEq, Eq)]
pub enum AtomicOptError {
    /// Reading the entry failed on the last attempt.
    ReadError(KvReadError),
    /// The entry does not exist.
    NotFound,
    /// The retry count is 0: nothing was tried.
    NeverTry,
    /// Writing the entry failed on the last attempt.
    WriteError(KvWriteError),
    /// The entry changed between the read and the write on the last
    /// allowed attempt: nothing was written.
    WriteConflict,
}

/// The outcome of reading the entry.
#[derive(Debug, PartialEq, Eq)]
pub enum AtomicRead {
    /// The entry exists.
    Found,
    /// The entry does not exist.
    Missing,
    /// The read failed.
    Failed(KvReadError),
}

/// The outcome of the bucket operation an [`AtomicMapTask`] asked for.
#[derive(Debug, PartialEq, Eq)]
pub enum AtomicEvent {
    /// The outcome of reading the entry.
    Read(AtomicRead),
    /// The outcome of writing the transformed value at the revision read.
    Written(Result<Option<u64>, KvWriteError>),
}

/// What an [`AtomicMapTask`] asks for next, or its result.
#[derive(Debug, PartialEq, Eq)]
pub enum AtomicAction {
    /// Read the entry with its revision.
    Read,
    /// Transform the value just read and write it at the revision read.
    TransformAndWrite,
    /// Done, with this result.
    Finish(Result<(), AtomicOptError>),
}

/// An atomic operation in progress.
#[derive(Debug, PartialEq, Eq)]
pub struct AtomicMapTask {
    /// The number of attempts allowed; `None` for no bound.
    pub retry_time: Option<u64>,
    /// The attempts that failed so far.
    pub failures: u64,
}

impl AtomicMapTask {
    /// The task has attempts left.
    pub open spec fn has_attempts_left(self) -> bool {
        match self.retry_time {
            Some(n) => self.failures < n,
            None => true,
        }
    }

    /// The next task and action after a failed attempt with `error`: try
    /// again while attempts are left, else give up with `error`. Without a
    /// bound, try again.
    pub open spec fn spec_after_failure(self, error: AtomicOptError) -> (AtomicMapTask, AtomicAction) {
        match self.retry_time {
            Some(n) => if self.failures + 1 < n {
                (AtomicMapTask { retry_time: self.retry_time, failures: (self.failures + 1) as u64 }, AtomicAction::Read)
            } else {
                (AtomicMapTask { retry_time: self.retry_time, failures: (self.failures + 1) as u64 }, AtomicAction::Finish(Err(error)))
            },
            None => (self, AtomicAction::Read),
        }
    }

    /// The next task and action after `event`.
    pub open spec fn spec_step(self, event: AtomicEvent) -> (AtomicMapTask, AtomicAction) {
        match event {
            AtomicEvent::Read(AtomicRead::Found) => (self, AtomicAction::TransformAndWrite),
            AtomicEvent::Read(AtomicRead::Missing) => (self, AtomicAction::Finish(Err(AtomicOptError::NotFound))),
            AtomicEvent::Read(AtomicRead::Failed(e)) => self.spec_after_failure(AtomicOptError::ReadError(e)),
            AtomicEvent::Written(Ok(Some(_))) => (self, AtomicAction::Finish(Ok(()))),
            AtomicEvent::Written(Ok(None)) => self.spec_after_failure(AtomicOptError::WriteConflict),
            AtomicEvent::Written(Err(e)) => self.spec_after_failure(AtomicOptError::WriteError(e)),
        }
    }

    /// Begin an atomic operation allowing `retry_time` attempts (`None` for
    /// no bound): read the entry, unless no attempt is allowed.
    pub fn begin(retry_time: Option<u64>) -> (r: (AtomicMapTask, AtomicAction))
        ensures
            r.0 == (AtomicMapTask { retry_time, failures: 0 }),
            retry_time == Some(0u64) ==> r.1 == AtomicAction::Finish(Err(AtomicOptError::NeverTry)),
            retry_time != Some(0u64) ==> r.1 == AtomicAction::Read,
    {
        let task = AtomicMapTask { retry_time, failures: 0 };
        match retry_time {
            Some(0) => (task, AtomicAction::Finish(Err(AtomicOptError::NeverTry))),
            _ => (task, AtomicAction::Read),
        }
    }

    fn after_failure(self, error: AtomicOptError) -> (r: (AtomicMapTask, AtomicAction))
        requires
            self.has_attempts_left(),
        ensures
            r == self.spec_after_failure(error),
    {
        match self.retry_time {
            Some(n) => {
                let failures: u64 = self.failures + 1;
                if failures < n {
                    (AtomicMapTask { retry_time: self.retry_time, failures }, AtomicAction::Read)
                } else {
                    (AtomicMapTask { retry_time: self.retry_time, failures }, AtomicAction::Finish(Err(error)))
                }
            },
            None => (self, AtomicAction::Read),
        }
    }

    /// Feed the task the outcome of what it asked for; get the next task
    /// and action. A read that finds the entry leads to the transformation;
    /// a missing entry ends the operation; a write that the bucket accepts
    /// at the revision read ends it successfully; a failed read, a failed
    /// write, or a write that lost its race counts as a failed attempt.
    pub fn step(self, event: AtomicEvent) -> (r: (AtomicMapTask, AtomicAction))
        requires
            self.has_attempts_left(),
        ensures
            r == self.spec_step(event),
    {
        match event {
            AtomicEvent::Read(AtomicRead::Found) => (self, AtomicAction::TransformAndWrite),
            AtomicEvent::Read(AtomicRead::Missing) => (self, AtomicAction::Finish(Err(AtomicOptError::NotFound))),
            AtomicEvent::Read(AtomicRead::Failed(e)) => self.after_failure(AtomicOptError::ReadError(e)),
            AtomicEvent::Written(Ok(Some(_))) => (self, AtomicAction::Finish(Ok(()))),
            AtomicEvent::Written(Ok(None)) => self.after_failure(AtomicOptError::WriteConflict),
            AtomicEvent::Written(Err(e)) => self.after_failure(AtomicOptError::WriteError(e)),
        }
    }
}

/// A bounded operation never exceeds its attempts: every step either keeps
/// attempts left for the next one or finishes, and giving up happens
/// exactly when the last allowed attempt failed.
pub proof fn lemma_bounded_attempts(task: AtomicMapTask, event: AtomicEvent)
    requires
        task.has_attempts_left(),
    ensures
        ({
            let (next, action) = task.spec_step(event);
            &&& action is Finish || next.has_attempts_left()
            &&& next.retry_time == task.retry_time
            &&& next.failures <= task.failures + 1
        }),
{
}

/// The operation is atomic: it succeeds only right after the transformed
/// value was written at the revision read. A write that lost its race is a
/// failed attempt, retried while attempts are left.
pub proof fn lemma_success_only_by_write(task: AtomicMapTask, event: AtomicEvent)
    requires
        task.has_attempts_left(),
    ensures
        task.spec_step(event).1 == AtomicAction::Finish(Ok(())) ==> event matches AtomicEvent::Written(Ok(Some(_))),
        event == AtomicEvent::Written(Ok(None)) ==> task.spec_step(event) == task.spec_after_failure(
            AtomicOptError::WriteConflict,
        ),
{
}

} // verus!
