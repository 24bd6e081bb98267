use vstd::prelude::*;

verus! {

/// Errors raised by the escrow program's own rules.
#[derive(Clone, Copy, Debug, PartialEq, Eq, Structural)]
pub enum CitizenErr {
    /// Reserved: a stake record was already paid out.
    AlreadyClaimed,
    /// Bump mismatch, non-authority finalize caller, voter-is-proposer
    /// violation, or a non-writable record in a finalize batch.
    NotAuthorized,
    /// Reserved: an outcome value the program does not accept.
    InvalidOutcome,
    /// The proposal's terminal flag was already set.
    AlreadyFinalized,
    /// A stake accumulation would exceed the 64-bit range.
    NumericalOverflow,
}

/// Failures of the token ledger's transfer and mint primitives.
#[derive(Clone, Copy, Debug, PartialEq, Eq, Structural)]
pub enum TokenErr {
    /// The source account holds less than the requested amount.
    InsufficientFunds,
    /// The destination balance (or mint supply) would exceed the 64-bit range.
    BalanceOverflow,
}

/// Everything an escrow operation can fail with: one of the program's own
/// errors, or a failure reported by the token ledger.
#[derive(Clone, Copy, Debug, PartialEq, Eq, Structural)]
pub enum OpError {
    Citizen(CitizenErr),
    Token(TokenErr),
}

/// The vote outcome handed to finalization. Accepted but not yet branched on:
/// distribution runs the same way for both variants.
#[derive(Clone, Copy, Debug, PartialEq, Eq, Structural)]
pub enum VoteOutcome {
    Approved,
    Rejected,
}

} // verus!
