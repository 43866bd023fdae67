//! Errors of message processing.
//!
//! The errors of the messaging system and of the codecs are carried as their
//! rendered description, so that every error value is a plain value.

use vstd::string::StringExecFns;
use vstd::prelude::*;
use vstd::std_specs::convert::IntoSpec;

verus! {

/// Error when serializing a message; holds the codec's description of the
/// failure.
#[derive(Debug, Clone, PartialEq, Eq)]
pub struct SerializeError(pub String);

/// Error when deserializing a message; holds the codec's description of the
/// failure.
#[derive(Debug, Clone, PartialEq, Eq)]
pub struct DeserializeError(pub String);

/// Error after the business logic, when answering.
#[derive(Debug, Clone, PartialEq, Eq)]
pub enum PostProcessError {
    /// The answer could not be serialized.
    SerializeError(SerializeError),
    /// Publishing into NATS core failed; holds the failure's description.
    NatsMessagePushError(String),
    /// The request to answer has no reply subject.
    UnexpectedNullReplySubject,
    /// Publishing into NATS JetStream failed; holds the failure's
    /// description.
    JetStreamMessagePushError(String),
}

impl PostProcessError {
    /// Create a [`PostProcessError`] from anything that converts into one.
    pub fn new<T: Into<Self>>(err: T) -> (r: Self)
        ensures
            <T as IntoSpec<Self>>::obeys_into_spec() ==> r == err.into_spec(),
    {
        err.into()
    }
}

impl From<SerializeError> for PostProcessError {
    fn from(err: SerializeError) -> (r: Self)
        ensures
            r == PostProcessError::SerializeError(err),
    {
        PostProcessError::SerializeError(err)
    }
}

impl vstd::std_specs::convert::FromSpecImpl<SerializeError> for PostProcessError {
    open spec fn obeys_from_spec() -> bool {
        true
    }

    open spec fn from_spec(err: SerializeError) -> Self {
        PostProcessError::SerializeError(err)
    }
}

/// Error before the business logic, when reading the request.
#[derive(Debug, Clone, PartialEq, Eq)]
pub enum PreProcessError {
    /// The request could not be deserialized.
    DeserializeError(DeserializeError),
    /// A JetStream message has no reply subject.
    UnexpectedNullReplySubject,
    /// The subject of the message is not one the processor handles; holds
    /// the subject.
    UnexpectedSubject(String),
}

impl PreProcessError {
    /// Create a [`PreProcessError`] from anything that converts into one.
    pub fn new<T: Into<Self>>(err: T) -> (r: Self)
        ensures
            <T as IntoSpec<Self>>::obeys_into_spec() ==> r == err.into_spec(),
    {
        err.into()
    }
}

impl From<DeserializeError> for PreProcessError {
    fn from(err: DeserializeError) -> (r: Self)
        ensures
            r == PreProcessError::DeserializeError(err),
    {
        PreProcessError::DeserializeError(err)
    }
}

impl vstd::std_specs::convert::FromSpecImpl<DeserializeError> for PreProcessError {
    open spec fn obeys_from_spec() -> bool {
        true
    }

    open spec fn from_spec(err: DeserializeError) -> Self {
        PreProcessError::DeserializeError(err)
    }
}

/// All errors of message processing.
#[derive(Debug, Clone, PartialEq, Eq)]
pub enum Error {
    /// Error before the business logic.
    PreProcessError(PreProcessError),
    /// Error in the business logic, which may be retried; holds its
    /// description.
    BusinessError(String),
    /// The business logic failed on every allowed attempt; holds the
    /// description of each failure, in order.
    BusinessRetryReached(Vec<String>),
    /// The business logic hit a bug or an unexpected failure; never retried.
    BusinessPanicError(String),
    /// Error after the business logic.
    PostProcessError(PostProcessError),
    /// Calling an RPC service failed; holds the failure's description.
    RpcCallRequestError(String),
    /// Any other error; holds its description.
    Custom(String),
}

impl Error {
    /// Create an [`Error`] from anything that converts into one.
    pub fn new<T: Into<Self>>(err: T) -> (r: Self)
        ensures
            <T as IntoSpec<Self>>::obeys_into_spec() ==> r == err.into_spec(),
    {
        err.into()
    }
}

impl From<PostProcessError> for Error {
    fn from(err: PostProcessError) -> (r: Self)
        ensures
            r == Error::PostProcessError(err),
    {
        Error::PostProcessError(err)
    }
}

impl vstd::std_specs::convert::FromSpecImpl<PostProcessError> for Error {
    open spec fn obeys_from_spec() -> bool {
        true
    }

    open spec fn from_spec(err: PostProcessError) -> Self {
        Error::PostProcessError(err)
    }
}

impl From<PreProcessError> for Error {
    fn from(err: PreProcessError) -> (r: Self)
        ensures
            r == Error::PreProcessError(err),
    {
        Error::PreProcessError(err)
    }
}

impl vstd::std_specs::convert::FromSpecImpl<PreProcessError> for Error {
    open spec fn obeys_from_spec() -> bool {
        true
    }

    open spec fn from_spec(err: PreProcessError) -> Self {
        Error::PreProcessError(err)
    }
}

/// `prefix` followed by `detail`.
pub(crate) fn joined(prefix: &str, detail: &str) -> (r: String)
    ensures
        r@ == prefix@ + detail@,
{
    let mut s = prefix.to_owned();
    s.append(detail);
    s
}

/// `prefix`, then `detail`, then `suffix`.
pub(crate) fn enclosed(prefix: &str, detail: &str, suffix: &str) -> (r: String)
    ensures
        r@ == prefix@ + detail@ + suffix@,
{
    let mut s = joined(prefix, detail);
    s.append(suffix);
    s
}

/// The descriptions separated by `, ` and enclosed in brackets, as a list
/// of errors is written out.
pub open spec fn spec_bracketed_list(items: Seq<Seq<char>>) -> Seq<char> {
    "["@ + spec_comma_joined(items) + "]"@
}

/// The descriptions separated by `, `.
pub open spec fn spec_comma_joined(items: Seq<Seq<char>>) -> Seq<char>
    decreases items.len(),
{
    if items.len() == 0 {
        Seq::empty()
    } else if items.len() == 1 {
        items[0]
    } else {
        spec_comma_joined(items.drop_last()) + ", "@ + items.last()
    }
}

/// The descriptions held by `v`.
pub open spec fn texts(v: Seq<String>) -> Seq<Seq<char>> {
    v.map_values(|s: String| s@)
}

/// Write out a list of error descriptions.
fn bracketed_list(items: &Vec<String>) -> (r: String)
    ensures
        r@ == spec_bracketed_list(texts(items@)),
{
    let mut s = "[".to_owned();
    let mut i: usize = 0;
    while i < items.len()
        invariant
            i <= items@.len(),
            s@ == "["@ + spec_comma_joined(texts(items@.subrange(0, i as int))),
        decreases items@.len() - i,
    {
        proof {
            assert(texts(items@.subrange(0, i as int + 1)).drop_last() =~= texts(items@.subrange(0, i as int)));
            assert(texts(items@.subrange(0, i as int + 1)).last() == items@[i as int]@);
        }
        if i > 0 {
            s.append(", ");
        } else {
            proof {
                assert(texts(items@.subrange(0, 0)) =~= Seq::<Seq<char>>::empty());
                assert(texts(items@.subrange(0, 1)) =~= seq![items@[0]@]);
            }
        }
        s.append(items[i].as_str());
        i = i + 1;
    }
    proof {
        assert(items@.subrange(0, items@.len() as int) =~= items@);
    }
    s.append("]");
    s
}

impl SerializeError {
    /// How the error is written out.
    pub open spec fn spec_message(&self) -> Seq<char> {
        "Failed to serialize message: \n"@ + self.0@
    }

    /// How the error is written out.
    pub fn message(&self) -> (r: String)
        ensures
            r@ == self.spec_message(),
    {
        joined("Failed to serialize message: \n", self.0.as_str())
    }
}

impl DeserializeError {
    /// How the error is written out.
    pub open spec fn spec_message(&self) -> Seq<char> {
        "Failed to deserialize message: \n"@ + self.0@
    }

    /// How the error is written out.
    pub fn message(&self) -> (r: String)
        ensures
            r@ == self.spec_message(),
    {
        joined("Failed to deserialize message: \n", self.0.as_str())
    }
}

impl PostProcessError {
    /// How the error is written out.
    pub open spec fn spec_message(&self) -> Seq<char> {
        match self {
            PostProcessError::SerializeError(e) => "Failed to serialize message:\n "@ + e.0@,
            PostProcessError::NatsMessagePushError(e) => "Failed to publish message:\n "@ + e@,
            PostProcessError::UnexpectedNullReplySubject => "Unexpected null reply subject"@,
            PostProcessError::JetStreamMessagePushError(e) => "Failed to publish message:\n "@ + e@,
        }
    }

    /// How the error is written out.
    pub fn message(&self) -> (r: String)
        ensures
            r@ == self.spec_message(),
    {
        match self {
            PostProcessError::SerializeError(e) => joined("Failed to serialize message:\n ", e.0.as_str()),
            PostProcessError::NatsMessagePushError(e) => joined("Failed to publish message:\n ", e.as_str()),
            PostProcessError::UnexpectedNullReplySubject => "Unexpected null reply subject".to_owned(),
            PostProcessError::JetStreamMessagePushError(e) => joined("Failed to publish message:\n ", e.as_str()),
        }
    }
}

impl PreProcessError {
    /// How the error is written out.
    pub open spec fn spec_message(&self) -> Seq<char> {
        match self {
            PreProcessError::DeserializeError(e) => "Failed to deserialize message:\n "@ + e.0@,
            PreProcessError::UnexpectedNullReplySubject => "Unexpected null reply subject"@,
            PreProcessError::UnexpectedSubject(s) => "Unexpected subject: "@ + s@,
        }
    }

    /// How the error is written out.
    pub fn message(&self) -> (r: String)
        ensures
            r@ == self.spec_message(),
    {
        match self {
            PreProcessError::DeserializeError(e) => joined("Failed to deserialize message:\n ", e.0.as_str()),
            PreProcessError::UnexpectedNullReplySubject => "Unexpected null reply subject".to_owned(),
            PreProcessError::UnexpectedSubject(s) => joined("Unexpected subject: ", s.as_str()),
        }
    }
}

impl Error {
    /// How the error is written out.
    pub open spec fn spec_message(&self) -> Seq<char> {
        match self {
            Error::PreProcessError(e) => "Failed to preprocess message:\n "@ + e.spec_message(),
            Error::BusinessError(e) => "Failed to process message:\n "@ + e@,
            Error::BusinessRetryReached(v) => "Failed to process message after retry:\n "@ + spec_bracketed_list(
                texts(v@),
            ),
            Error::BusinessPanicError(e) => "Business logic panic error:\n "@ + e@,
            Error::PostProcessError(e) => "Failed to postprocess message:\n "@ + e.spec_message(),
            Error::RpcCallRequestError(e) => "Failed to call RPC service:\n "@ + e@,
            Error::Custom(e) => "Custom error:\n "@ + e@,
        }
    }

    /// How the error is written out.
    pub fn message(&self) -> (r: String)
        ensures
            r@ == self.spec_message(),
    {
        match self {
            Error::PreProcessError(e) => {
                let inner = e.message();
                joined("Failed to preprocess message:\n ", inner.as_str())
            },
            Error::BusinessError(e) => joined("Failed to process message:\n ", e.as_str()),
            Error::BusinessRetryReached(v) => {
                let list = bracketed_list(v);
                joined("Failed to process message after retry:\n ", list.as_str())
            },
            Error::BusinessPanicError(e) => joined("Business logic panic error:\n ", e.as_str()),
            Error::PostProcessError(e) => {
                let inner = e.message();
                joined("Failed to postprocess message:\n ", inner.as_str())
            },
            Error::RpcCallRequestError(e) => joined("Failed to call RPC service:\n ", e.as_str()),
            Error::Custom(e) => joined("Custom error:\n ", e.as_str()),
        }
    }
}

} // verus!
