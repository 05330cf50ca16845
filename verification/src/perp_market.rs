//! A perpetual market, as far as liquidation reads it.

use vstd::prelude::*;
use crate::i80f48::{I80F48, ONE_BITS};

verus! {

/// A market: its lot size, its risk weights, its liquidation fee and the
/// funding that has accrued per lot on either side.
#[derive(Clone, Copy, Debug, PartialEq, Eq, Structural)]
pub struct PerpMarket {
    pub perp_market_index: u16,
    /// Native base units in one lot.
    pub base_lot_size: i64,
    pub maint_asset_weight: I80F48,
    pub init_asset_weight: I80F48,
    pub maint_liab_weight: I80F48,
    pub init_liab_weight: I80F48,
    /// The share of the price that the liquidator keeps.
    pub liquidation_fee: I80F48,
    /// Funding accrued so far by one lot held long.
    pub long_funding: I80F48,
    /// Funding accrued so far by one lot held short.
    pub short_funding: I80F48,
}

impl PerpMarket {
    /// The liquidation fee is a fraction: at least zero and below one.
    pub open spec fn spec_has_valid_fee(self) -> bool {
        0 <= self.liquidation_fee.bits < ONE_BITS
    }

    /// Whether the liquidation fee is at least zero and below one.
    pub fn has_valid_fee(&self) -> (r: bool)
        ensures
            r == self.spec_has_valid_fee(),
    {
        0 <= self.liquidation_fee.bits && self.liquidation_fee.bits < ONE_BITS
    }
}

} // verus!
