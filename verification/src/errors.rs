use vstd::prelude::*;

verus! {

/// Typed failure of an operation. Every error aborts the whole enclosing
/// operation; the ledger runtime's atomic-commit boundary guarantees that no
/// partial mutation is observable, and the functions of this crate model that
/// by leaving every `&mut` argument unchanged when they return an error.
#[derive(Clone, Copy, Debug, PartialEq, Eq, Structural)]
pub enum ContractError {
    /// Overflow, underflow or division by zero in a checked computation.
    ArithmeticError,
    /// A signer or authority does not match the configured identity.
    AuthorizationError,
    /// The operation was attempted outside its required lifecycle state.
    InvalidState,
    /// The oracle reading is older than the staleness window.
    StaleFeed,
}

} // verus!
