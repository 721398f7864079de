use vstd::prelude::*;

verus! {

/// The configuration parameters in their stored shape; field for field
/// the same data as `ContractConfig`.
#[derive(Clone, Debug, PartialEq, Eq)]
pub struct ConfigData {
    /// The admin identity, in textual form.
    pub admin: String,
    /// The value-transfer ledger reference, in textual form.
    pub token: String,
    /// The base per-day fee, in the smallest value-transfer unit.
    pub fee: u64,
}

} // verus!
