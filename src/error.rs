//! The ways an instruction can be refused.
use vstd::prelude::*;

verus! {

/// Why an instruction was refused. Every refusal aborts the whole instruction.
#[derive(Debug, Clone, Copy, PartialEq, Eq, Structural)]
pub enum EscrowError {
    /// A command byte, payload length, account list or stored discriminant that does not parse.
    MalformedInput,
    /// An account, program or derived address that is not the one required.
    IdentityMismatch,
    /// A required signature is missing.
    AuthorizationFailure,
    /// The contract is in the wrong lifecycle state, or the time forbids the operation.
    StateViolation,
    /// An escrowed or paid quantity differs from the one the terms require.
    BalanceViolation,
}

} // verus!
