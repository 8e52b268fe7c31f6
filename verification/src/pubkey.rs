use vstd::prelude::*;

verus! {

/// An identity on the hosting ledger: a user, an account, a token registry.
/// The engine only ever compares identities for equality and routes value
/// transfers between them, so an opaque numeric identifier stands for the
/// ledger's native address type.
#[derive(Clone, Copy, Debug, PartialEq, Eq, Structural)]
pub struct Pubkey {
    pub id: u64,
}

} // verus!
