use vstd::prelude::*;

verus! {

/// The configuration handed to `config` at initialization.
#[derive(Clone, Debug, PartialEq, Eq)]
pub struct ContractConfig {
    /// The admin identity, in textual form.
    pub admin: String,
    /// The value-transfer ledger reference, in textual form.
    pub token: String,
    /// The base per-day fee, in the smallest value-transfer unit.
    pub fee: u64,
}

} // verus!
