//! Coordination primitives for NATS-based services: a distributed
//! read-write lock and a leader election kept in a key-value bucket,
//! subject paths and subject matchers, message routing, the retry policy
//! of message processors, and the declarative options of streams,
//! consumers, services and messages.
//!
//! Every decision the primitives take is made by the verified functions of
//! this crate; the network round trips (reading and writing the bucket,
//! sleeping between attempts, publishing replies) are performed by the
//! caller, which feeds the outcome of each round trip back in.

pub mod attr;
pub mod clock;
pub mod kv;
pub mod error;
pub mod jetstream;
pub mod message;
pub mod pool;
pub mod processor;
pub mod random;
pub mod service_rpc;
