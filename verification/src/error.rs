use vstd::prelude::*;

verus! {

/// The failure taxonomy of the request pipeline.
#[derive(Clone, Copy, Debug, PartialEq, Eq, Structural)]
pub enum TransferError {
    /// Structurally invalid input: the amount matrix does not match the
    /// token and party lists. Rejected before any chain interaction.
    MalformedRequest,
    /// Percentage resolution (or a batch total) left the representable
    /// 256-bit range. Surfaced to the caller, never wrapped.
    ArithmeticOverflow,
    /// A holder lacks funds for their resolved amount. Terminal for the
    /// whole request, and distinct from operational failures.
    InsufficientBalance,
    /// A chain read or write failed for infrastructural reasons.
    TransactionError,
}

} // verus!
