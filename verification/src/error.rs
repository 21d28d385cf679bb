//! Error kinds of the instruction state machine.
//!
//! Every error aborts the whole instruction: the execution environment applies
//! an instruction's effects atomically or not at all, so a caller that
//! receives one of these kinds observes zero side effects.

use vstd::prelude::*;

verus! {

/// The closed set of failures an instruction can end in.
#[derive(Clone, Copy, Debug, PartialEq, Eq, Structural)]
pub enum StepError {
    /// Unrecognized opcode or truncated payload; the caller must fix the request.
    MalformedInstruction,
    /// A supplied handle does not match its required derived address or owner.
    AddressMismatch,
    /// A required signer is absent or does not match the recorded authority.
    MissingAuthority,
    /// An attempt to re-create an existing singleton or pool record.
    AlreadyInitialized,
    /// Stored bytes do not decode into the expected record shape.
    CorruptRecord,
    /// A non-positive or out-of-range numeric argument.
    InvalidAmount,
    /// The token-transfer or swap collaborator rejected the request.
    ExternalCallFailed,
}

} // verus!
