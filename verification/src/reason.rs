//! Reason codes of the publish/subscribe layer and what they mean here.
use vstd::prelude::*;

verus! {

/// Wire value that reports a failure of the network under the session.
pub const NETWORK_ERROR: u8 = 0xFF;

/// Wire value that reports a packet too large for its buffer.
pub const BUFFER_ERROR: u8 = 0xFE;

/// The two kinds of failure that the session manager tells apart.
#[derive(Debug, Clone, Copy, PartialEq, Eq, Structural)]
pub enum ReasonClass {
    /// The network under the session failed: worth another attempt.
    Network,
    /// Anything else the publish/subscribe layer reports.
    Other,
}

/// Why a publish/subscribe operation failed, as the one-byte value of its
/// reason code.
#[derive(Debug, Clone, Copy, PartialEq, Eq, Structural)]
pub struct ReasonCode {
    pub value: u8,
}

impl ReasonCode {
    /// The class of the code: `Network` for the value 0xFF, `Other` for every
    /// other value.
    pub open spec fn class(self) -> ReasonClass {
        if self.value == NETWORK_ERROR {
            ReasonClass::Network
        } else {
            ReasonClass::Other
        }
    }

    /// The reason code with the wire value `value`.
    pub fn new(value: u8) -> (code: ReasonCode)
        ensures
            code.value == value,
    {
        ReasonCode { value }
    }

    /// The class of the code.
    pub fn classify(self) -> (class: ReasonClass)
        ensures
            class == self.class(),
    {
        if self.value == NETWORK_ERROR {
            ReasonClass::Network
        } else {
            ReasonClass::Other
        }
    }

    /// Whether the code reports a failure of the network.
    pub fn is_network_error(self) -> (network: bool)
        ensures
            network == (self.class() == ReasonClass::Network),
            network == (self.value == NETWORK_ERROR),
    {
        self.value == NETWORK_ERROR
    }

    /// Whether the code reports a packet that did not fit its buffer. Such a
    /// code belongs to the class `Other`; a driver can still report it apart.
    pub fn is_capacity_violation(self) -> (violation: bool)
        ensures
            violation == (self.value == BUFFER_ERROR),
            violation ==> self.class() == ReasonClass::Other,
    {
        self.value == BUFFER_ERROR
    }
}

} // verus!
