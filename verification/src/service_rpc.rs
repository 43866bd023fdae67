//! NATS core services: answering each request on its reply subject.

use crate::error::{Error, PostProcessError};
use vstd::prelude::*;

verus! {

/// What answering a request asks for: publishing the answer on the reply
/// subject, or nothing more because the request failed.
pub open spec fn spec_reply_plan(reply: Option<String>, processed: Result<Vec<u8>, Error>) -> Result<(String, Vec<u8>), Error> {
    match processed {
        Err(e) => Err(e),
        Ok(bytes) => match reply {
            None => Err(Error::PostProcessError(PostProcessError::UnexpectedNullReplySubject)),
            Some(subject) => Ok((subject, bytes)),
        },
    }
}

/// Decide how to answer a request whose reply subject is `reply` and whose
/// processing gave `processed`: a failed request gets no answer and its
/// error is passed on; an answer needs a reply subject.
pub fn reply_plan(reply: Option<String>, processed: Result<Vec<u8>, Error>) -> (r: Result<(String, Vec<u8>), Error>)
    ensures
        r == spec_reply_plan(reply, processed),
{
    match processed {
        Err(e) => Err(e),
        Ok(bytes) => match reply {
            None => Err(Error::PostProcessError(PostProcessError::UnexpectedNullReplySubject)),
            Some(subject) => Ok((subject, bytes)),
        },
    }
}

/// The result of publishing an answer, which failed with this description
/// or succeeded.
pub fn reply_sent(published: Result<(), String>) -> (r: Result<(), Error>)
    ensures
        match published {
            Ok(()) => r == Ok::<(), Error>(()),
            Err(e) => r == Err::<(), Error>(Error::PostProcessError(PostProcessError::NatsMessagePushError(e))),
        },
{
    match published {
        Ok(()) => Ok(()),
        Err(e) => Err(Error::PostProcessError(PostProcessError::NatsMessagePushError(e))),
    }
}

} // verus!
