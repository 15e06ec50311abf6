//! The error taxonomy of the publisher core.

use vstd::prelude::*;

verus! {

/// Everything that can go wrong in the core. No variant is fatal to the
/// process: a setup error aborts one topic, a tick error skips one tick.
#[derive(Clone, Copy, Debug, PartialEq, Eq, Structural)]
pub enum FuzzError {
    /// The configuration names a message type with no registered generator.
    UnknownMessageType,
    /// The configured rate is not positive.
    InvalidRate,
    /// The bus rejected the creation of the publisher.
    PublisherSetupFailed,
    /// A generator needed more entropy than was left.
    GenerationExhausted,
    /// The consumed bytes did not decode to a valid payload.
    GenerationMalformed,
    /// The bus rejected a publish call.
    PublishFailed,
}

impl FuzzError {
    /// Errors of topic setup: they abort that topic, and only that topic.
    pub open spec fn is_setup_error(self) -> bool {
        self == FuzzError::UnknownMessageType || self == FuzzError::InvalidRate || self
            == FuzzError::PublisherSetupFailed
    }

    /// Errors of one tick: the tick is skipped or reported, the task goes on.
    pub open spec fn is_tick_error(self) -> bool {
        !self.is_setup_error()
    }

    /// Whether this error belongs to topic setup rather than to a tick.
    pub fn aborts_setup(&self) -> (b: bool)
        ensures
            b == self.is_setup_error(),
    {
        match self {
            FuzzError::UnknownMessageType => true,
            FuzzError::InvalidRate => true,
            FuzzError::PublisherSetupFailed => true,
            FuzzError::GenerationExhausted => false,
            FuzzError::GenerationMalformed => false,
            FuzzError::PublishFailed => false,
        }
    }
}

} // verus!
