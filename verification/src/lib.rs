//! Settlement core of a two-sided outcome market: bonding-curve pricing,
//! fee splitting, the market lifecycle state machine, and oracle resolution,
//! all on plain integer values. The hosting ledger runtime (account storage,
//! value transfers, token minting, feed reads) is an external collaborator:
//! it hands these functions plain values and carries out the transfers they
//! decide on.

pub mod engine;
pub mod errors;
pub mod fees;
pub mod global;
pub mod market;
pub mod oracle;
pub mod pubkey;
