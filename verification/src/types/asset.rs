use vstd::prelude::*;

verus! {

/// An asset identifier, opaque to the billing core: either the textual
/// form of an on-ledger asset address or a free-form ticker symbol.
#[derive(Clone, Debug, PartialEq, Eq)]
pub enum Asset {
    /// On-ledger asset, identified by its address in textual form.
    Stellar(String),
    /// External asset, identified by a ticker symbol.
    Other(String),
}

impl Asset {
    /// A copy of this identifier, equal to the original.
    pub fn duplicate(&self) -> (r: Asset)
        ensures
            r == *self,
    {
        match self {
            Asset::Stellar(address) => Asset::Stellar(address.clone()),
            Asset::Other(symbol) => Asset::Other(symbol.clone()),
        }
    }
}

} // verus!
