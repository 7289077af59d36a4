//! The fixed budgets and timeouts of a session.

use vstd::prelude::*;

verus! {

/// Port that the TCP transport listens on, on all interfaces.
pub const TCP_PORT: u16 = 3000;

/// Budgets and timeouts of the handshake and of the streaming loop.
///
/// A budget below one behaves as one: the handshake always polls at least once for
/// the re-enumerated device, and the first failed send is fatal at the latest when
/// the threshold is reached.
#[derive(Clone, Copy, Debug, PartialEq, Eq, Structural)]
pub struct Limits {
    /// How often the handshake polls for the re-enumerated device.
    pub reenumeration_attempts: u32,
    /// Pause before each poll but the first, in milliseconds.
    pub reenumeration_spacing_ms: u64,
    /// Number of consecutive failed sends that ends a session.
    pub failure_threshold: u32,
    /// Timeout of the `GetProtocolVersion` transfer, in milliseconds.
    pub version_timeout_ms: u64,
    /// Timeout of the `StartAccessory` transfer, in milliseconds.
    pub start_timeout_ms: u64,
    /// Timeout of one bulk write, in milliseconds.
    pub bulk_timeout_ms: u64,
}

impl Limits {
    /// The budgets that apply where none are given: ten polls one second apart, five consecutive failed
    /// sends, a 100 ms version query, a 10 s mode switch and 5 s bulk writes.
    pub open spec fn spec_default() -> Limits {
        Limits {
            reenumeration_attempts: 10,
            reenumeration_spacing_ms: 1000,
            failure_threshold: 5,
            version_timeout_ms: 100,
            start_timeout_ms: 10000,
            bulk_timeout_ms: 5000,
        }
    }

    /// The number of polls that the handshake makes before it gives up.
    pub open spec fn spec_poll_budget(self) -> nat {
        if self.reenumeration_attempts < 1 {
            1
        } else {
            self.reenumeration_attempts as nat
        }
    }

    /// The number of consecutive failed sends at which a session ends.
    pub open spec fn spec_fatal_failures(self) -> nat {
        if self.failure_threshold < 1 {
            1
        } else {
            self.failure_threshold as nat
        }
    }

    /// The number of polls that the handshake makes before it gives up.
    pub fn poll_budget(&self) -> (budget: u32)
        ensures
            budget == self.spec_poll_budget(),
    {
        if self.reenumeration_attempts < 1 {
            1
        } else {
            self.reenumeration_attempts
        }
    }

    /// The number of consecutive failed sends at which a session ends.
    pub fn fatal_failures(&self) -> (threshold: u32)
        ensures
            threshold == self.spec_fatal_failures(),
    {
        if self.failure_threshold < 1 {
            1
        } else {
            self.failure_threshold
        }
    }
}

impl Default for Limits {
    fn default() -> (limits: Limits)
        ensures
            limits == Limits::spec_default(),
    {
        Limits {
            reenumeration_attempts: 10,
            reenumeration_spacing_ms: 1000,
            failure_threshold: 5,
            version_timeout_ms: 100,
            start_timeout_ms: 10000,
            bulk_timeout_ms: 5000,
        }
    }
}

} // verus!
