use vstd::prelude::*;

use crate::types::asset::Asset;

verus! {

/// An asset together with the price-feed source that quotes it. Stored
/// and returned verbatim; the billing core never interprets it.
#[derive(Clone, Debug, PartialEq, Eq)]
pub struct TickerAsset {
    /// Asset identifier.
    pub asset: Asset,
    /// Price feed source.
    pub source: String,
}

impl TickerAsset {
    /// A copy of this descriptor, equal to the original.
    pub fn duplicate(&self) -> (r: TickerAsset)
        ensures
            r == *self,
    {
        TickerAsset { asset: self.asset.duplicate(), source: self.source.clone() }
    }
}

} // verus!
