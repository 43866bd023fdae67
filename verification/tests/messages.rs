use shizuku::attr::consumer::ConsumerOptionError;
use shizuku::attr::nats_message::MessageOptionError;
use shizuku::attr::rpc_route::RouteArgsError;
use shizuku::attr::rpc_service::RpcOptionError;
use shizuku::attr::stream_meta::StreamOptionError;
use shizuku::error::{DeserializeError, Error, PostProcessError, PreProcessError, SerializeError};
use shizuku::kv::election::{leader_guard, ElectionDesErr, ElectionError, ElectionSerErr, LeaderGuardError};
use shizuku::kv::rw_lock::{
    guard_acquired, guard_released, DistroRwLockDesErr, DistroRwLockError, DistroRwLockSerErr, WithLockProcessError,
};

#[test]
fn codec_error_messages() {
    assert_eq!(SerializeError("bad".to_string()).message(), "Failed to serialize message: \nbad");
    assert_eq!(DeserializeError("eof".to_string()).message(), "Failed to deserialize message: \neof");
}

#[test]
fn stage_error_messages() {
    assert_eq!(
        PostProcessError::SerializeError(SerializeError("x".to_string())).message(),
        "Failed to serialize message:\n x"
    );
    assert_eq!(PostProcessError::NatsMessagePushError("closed".to_string()).message(), "Failed to publish message:\n closed");
    assert_eq!(PostProcessError::UnexpectedNullReplySubject.message(), "Unexpected null reply subject");
    assert_eq!(PostProcessError::JetStreamMessagePushError("no ack".to_string()).message(), "Failed to publish message:\n no ack");
    assert_eq!(
        PreProcessError::DeserializeError(DeserializeError("y".to_string())).message(),
        "Failed to deserialize message:\n y"
    );
    assert_eq!(PreProcessError::UnexpectedNullReplySubject.message(), "Unexpected null reply subject");
    assert_eq!(PreProcessError::UnexpectedSubject("a.b".to_string()).message(), "Unexpected subject: a.b");
}

#[test]
fn error_messages() {
    assert_eq!(
        Error::PreProcessError(PreProcessError::UnexpectedSubject("a".to_string())).message(),
        "Failed to preprocess message:\n Unexpected subject: a"
    );
    assert_eq!(Error::BusinessError("oops".to_string()).message(), "Failed to process message:\n oops");
    assert_eq!(
        Error::BusinessRetryReached(vec!["one".to_string(), "two".to_string(), "three".to_string()]).message(),
        "Failed to process message after retry:\n [one, two, three]"
    );
    assert_eq!(Error::BusinessRetryReached(vec![]).message(), "Failed to process message after retry:\n []");
    assert_eq!(Error::BusinessPanicError("bug".to_string()).message(), "Business logic panic error:\n bug");
    assert_eq!(
        Error::PostProcessError(PostProcessError::UnexpectedNullReplySubject).message(),
        "Failed to postprocess message:\n Unexpected null reply subject"
    );
    assert_eq!(Error::RpcCallRequestError("timeout".to_string()).message(), "Failed to call RPC service:\n timeout");
    assert_eq!(Error::Custom("c".to_string()).message(), "Custom error:\n c");
}

#[test]
fn state_codec_error_messages() {
    assert_eq!(DistroRwLockDesErr::InvalidByteLength.message(), "Invalid byte length");
    assert_eq!(DistroRwLockDesErr::BadByteValue.message(), "Invalid byte value");
    assert_eq!(DistroRwLockSerErr.message(), "Failed to serialize lock state");
    assert_eq!(ElectionDesErr::InvalidByteLength.message(), "Invalid byte length");
    assert_eq!(ElectionDesErr::InvalidFormat.message(), "Invalid format");
    assert_eq!(ElectionSerErr.message(), "Failed to serialize election state");
}

#[test]
fn lock_guard_runs_only_under_the_lock() {
    assert_eq!(guard_acquired(Ok(())), Ok(()));
    assert_eq!(
        guard_acquired(Err(DistroRwLockError::UnexpectedMissingValue)),
        Err(WithLockProcessError::FailOnAcquire(DistroRwLockError::UnexpectedMissingValue))
    );
    assert_eq!(guard_released(Ok(()), 7u32), Ok(7));
    assert_eq!(
        guard_released(Err(DistroRwLockError::AlreadyReleased), 7u32),
        Err(WithLockProcessError::FailOnRelease(DistroRwLockError::AlreadyReleased))
    );
}

#[test]
fn leader_guard_runs_only_on_the_leader() {
    assert_eq!(leader_guard(Ok(true)), Ok(()));
    assert_eq!(leader_guard(Ok(false)), Err(LeaderGuardError::NotLeader));
    assert_eq!(
        leader_guard(Err(ElectionError::UnexpectedMissingValue)),
        Err(LeaderGuardError::ElectionError(ElectionError::UnexpectedMissingValue))
    );
}

#[test]
fn option_error_messages() {
    assert_eq!(ConsumerOptionError::UnexpectedAttribute("colour".to_string()).message(), "unexpected attribute: `colour`");
    assert_eq!(ConsumerOptionError::PushAndPull.message(), "can't set both `push` and `pull`");
    assert_eq!(ConsumerOptionError::InvalidAckPolicy.message(), "expected one of: all, explicit, none");
    assert_eq!(ConsumerOptionError::MaxBatchWithoutPull.message(), "`max_batch` can't be set when `pull` is not set");
    assert_eq!(StreamOptionError::MissingName.message(), "expected `name` attribute");
    assert_eq!(StreamOptionError::MissingOptions.message(), "expected jetstream options");
    assert_eq!(RpcOptionError::NoAttribute.message(), "Expected at least one attribute");
    assert_eq!(RouteArgsError::MissingNatsConnection.message(), "Expected `nats_connection` attribute");
    assert_eq!(
        RouteArgsError::MissingEndpoint("B".to_string()).message(),
        "expected an `rpc_endpoint(...)` attribute on variant `B`"
    );
    assert_eq!(MessageOptionError::MissingSubject.message(), "Missing subject option");
}
