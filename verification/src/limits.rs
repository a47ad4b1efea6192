//! Fixed capacities and delays.
use vstd::prelude::*;

verus! {

/// Interval between two looks at the link or at the assigned address.
pub const READINESS_POLL_MS: u64 = 500;

/// Delay in front of every connection attempt.
pub const ATTEMPT_PACING_MS: u64 = 1_000;

/// Idle time after which the stream socket gives up.
pub const SOCKET_IDLE_TIMEOUT_MS: u64 = 10_000;

/// Delay after every turn of the receive loop, whatever its outcome.
pub const RECEIVE_PACING_MS: u64 = 10_000;

/// Pause of the link supervisor after a drop or a failed association.
pub const LINK_RETRY_MS: u64 = 5_000;

/// Size of each send and receive buffer, in bytes.
pub const BUFFER_CAPACITY: usize = 4096;

/// Largest packet the session accepts or sends, in bytes.
pub const MAX_PACKET_SIZE: u32 = 4096;

/// Number of topics a subscription set can hold.
pub const TOPIC_CAPACITY: usize = 5;

/// Number of bytes a client identifier, a user name or a password may have:
/// one that is longer than a packet buffer could never be sent.
pub const IDENTIFIER_CAPACITY: usize = 4096;

/// Number of bytes a network name can hold.
pub const NETWORK_NAME_CAPACITY: usize = 32;

/// Number of bytes a network secret can hold.
pub const NETWORK_SECRET_CAPACITY: usize = 64;

} // verus!
