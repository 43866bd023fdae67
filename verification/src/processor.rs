//! The retry policy of message processors.
//!
//! A processor runs the business logic of a message. [`RetryLayer`] runs it
//! once, and again while it fails with a business error, up to a number of
//! retries; any other error, and any success, ends the retries at once.

use crate::error::Error;
use vstd::prelude::*;

verus! {

/// A layer that retries the processor while it fails with
/// [`Error::BusinessError`].
#[derive(Debug, Clone, Copy, PartialEq, Eq, Structural)]
pub struct RetryLayer {
    /// The maximum number of retries after the first attempt.
    pub max_retry: usize,
}

/// The number of retries of the default retry policy.
pub const BUSINESS_MAX_RETRY: usize = 3;

/// How far the retries have got: the attempts made so far and the business
/// errors they ended with, in order.
#[derive(Debug)]
pub struct RetryProgress {
    /// The attempts made so far.
    pub attempts: usize,
    /// The business errors of those attempts.
    pub errors: Vec<String>,
}

/// What the retry policy decides: attempt once more, or finish with a
/// result.
#[derive(Debug)]
pub enum RetryStep<S> {
    /// Run the processor once more.
    Again(RetryProgress),
    /// Stop with this result.
    Done(Result<S, Error>),
}

impl RetryLayer {
    /// Create a retry layer allowing `max_retry` retries.
    pub fn new(max_retry: usize) -> (r: Self)
        ensures
            r.max_retry == max_retry,
    {
        RetryLayer { max_retry }
    }

    /// The progress is consistent: at most `max_retry` failed attempts so
    /// far, so that one more attempt is owed, and one business error per
    /// failed attempt.
    pub open spec fn in_progress(self, p: RetryProgress) -> bool {
        p.attempts <= self.max_retry && p.errors@.len() == p.attempts
    }

    /// Begin: the processor is always attempted once.
    pub fn start<S>(&self) -> (r: RetryStep<S>)
        ensures
            r matches RetryStep::Again(p) && p.attempts == 0 && p.errors@.len() == 0 && self.in_progress(p),
    {
        RetryStep::Again(RetryProgress { attempts: 0, errors: Vec::new() })
    }

    /// Decide on the outcome of an attempt: a success or an error other than
    /// a business error ends the retries with it; a business error is
    /// collected, and ends the retries with all collected errors once the
    /// first attempt and `max_retry` retries have failed.
    pub fn next<S>(&self, progress: RetryProgress, outcome: Result<S, Error>) -> (r: RetryStep<S>)
        requires
            self.in_progress(progress),
        ensures
            match outcome {
                Ok(s) => r == RetryStep::Done(Ok::<S, Error>(s)),
                Err(Error::BusinessError(e)) => if progress.attempts < self.max_retry {
                    r matches RetryStep::Again(p)
                        && p.attempts == progress.attempts + 1
                        && p.errors@ == progress.errors@.push(e)
                        && self.in_progress(p)
                } else {
                    r matches RetryStep::Done(Err(Error::BusinessRetryReached(v)))
                        && v@ == progress.errors@.push(e)
                        && v@.len() == self.max_retry + 1
                },
                Err(e) => r == RetryStep::Done(Err::<S, Error>(e)),
            },
    {
        match outcome {
            Ok(s) => RetryStep::Done(Ok(s)),
            Err(Error::BusinessError(e)) => {
                let mut errors = progress.errors;
                errors.push(e);
                if progress.attempts < self.max_retry {
                    RetryStep::Again(RetryProgress { attempts: progress.attempts + 1, errors })
                } else {
                    RetryStep::Done(Err(Error::BusinessRetryReached(errors)))
                }
            },
            Err(e) => RetryStep::Done(Err(e)),
        }
    }
}

impl Default for RetryLayer {
    /// The default policy: [`BUSINESS_MAX_RETRY`] retries.
    fn default() -> (r: Self)
        ensures
            r.max_retry == BUSINESS_MAX_RETRY,
    {
        RetryLayer { max_retry: BUSINESS_MAX_RETRY }
    }
}

} // verus!
