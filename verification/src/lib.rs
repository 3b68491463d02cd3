//! Authorization-gated release of funds from a custodial vault.
//!
//! The crate models a single guarded operation: a scholar agent identity
//! attests that an external condition holds, and, if that identity matches
//! the registered authority that signed the call, a fixed amount moves from
//! the vault account to the researcher account. The guard and the balance
//! movement are verified here; signature checking and the ledger that
//! ultimately commits balances belong to the hosting runtime.

pub mod identity;
pub mod release;
