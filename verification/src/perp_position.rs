//! One account's position in one perpetual market.

use vstd::prelude::*;
use crate::error::MangoError;
use crate::i80f48::I80F48;
use crate::perp_market::PerpMarket;

verus! {

/// The market index that marks a slot as free.
pub const FREE_MARKET_INDEX: u16 = 0xffff;

/// A position: signed base lots, a quote balance, the funding already
/// settled and the lots bound in orders.
#[derive(Clone, Copy, Debug, PartialEq, Eq, Structural)]
pub struct PerpPosition {
    pub market_index: u16,
    pub base_position_lots: i64,
    pub quote_position_native: I80F48,
    /// The market's long funding at the last settlement.
    pub long_settled_funding: I80F48,
    /// The market's short funding at the last settlement.
    pub short_settled_funding: I80F48,
    pub bids_base_lots: i64,
    pub asks_base_lots: i64,
    pub taker_base_lots: i64,
    pub taker_quote_lots: i64,
}

impl PerpPosition {
    /// An empty position in the market `market_index`.
    pub open spec fn spec_new(market_index: u16) -> PerpPosition {
        PerpPosition {
            market_index,
            base_position_lots: 0,
            quote_position_native: I80F48 { bits: 0 },
            long_settled_funding: I80F48 { bits: 0 },
            short_settled_funding: I80F48 { bits: 0 },
            bids_base_lots: 0,
            asks_base_lots: 0,
            taker_base_lots: 0,
            taker_quote_lots: 0,
        }
    }

    /// The slot holds a position.
    pub open spec fn spec_is_active(self) -> bool {
        self.market_index != FREE_MARKET_INDEX
    }

    /// The slot holds a position in the market `market_index`.
    pub open spec fn spec_is_active_for_market(self, market_index: u16) -> bool {
        self.spec_is_active() && self.market_index == market_index
    }

    /// Some lots are bound in resting orders or in fills not yet processed.
    pub open spec fn spec_has_open_orders(self) -> bool {
        self.asks_base_lots != 0 || self.bids_base_lots != 0 || self.taker_base_lots != 0
            || self.taker_quote_lots != 0
    }

    /// The funding that has accrued on the position since its last
    /// settlement: the growth of the market's funding on the position's
    /// side, times the lots held. `None` where a step overflows.
    pub open spec fn spec_unsettled_funding(self, market: PerpMarket) -> Option<I80F48> {
        if self.base_position_lots == 0 {
            Some(I80F48 { bits: 0 })
        } else {
            let growth = if self.base_position_lots > 0 {
                market.long_funding.spec_checked_sub(self.long_settled_funding)
            } else {
                market.short_funding.spec_checked_sub(self.short_settled_funding)
            };
            match growth {
                Some(g) => g.spec_checked_mul(I80F48::spec_from_num(self.base_position_lots)),
                None => None,
            }
        }
    }

    /// The position after settlement: the unsettled funding is taken from
    /// the quote balance and the market's funding is noted as settled.
    pub open spec fn spec_settle_funding(self, market: PerpMarket) -> Option<PerpPosition> {
        match self.spec_unsettled_funding(market) {
            Some(funding) => match self.quote_position_native.spec_checked_sub(funding) {
                Some(quote) => Some(
                    PerpPosition {
                        quote_position_native: quote,
                        long_settled_funding: market.long_funding,
                        short_settled_funding: market.short_funding,
                        ..self
                    },
                ),
                None => None,
            },
            None => None,
        }
    }

    /// The position after `base_change` lots and `quote_change` quote were
    /// added to it. `None` where a sum overflows.
    pub open spec fn spec_change_base_and_quote_positions(
        self,
        base_change: i64,
        quote_change: I80F48,
    ) -> Option<PerpPosition> {
        if i64::MIN <= self.base_position_lots + base_change <= i64::MAX {
            match self.quote_position_native.spec_checked_add(quote_change) {
                Some(quote) => Some(
                    PerpPosition {
                        base_position_lots: (self.base_position_lots + base_change) as i64,
                        quote_position_native: quote,
                        ..self
                    },
                ),
                None => None,
            }
        } else {
            None
        }
    }

    /// An empty position in the market `market_index`.
    pub fn new(market_index: u16) -> (p: PerpPosition)
        ensures
            p == Self::spec_new(market_index),
    {
        PerpPosition {
            market_index,
            base_position_lots: 0,
            quote_position_native: I80F48::zero(),
            long_settled_funding: I80F48::zero(),
            short_settled_funding: I80F48::zero(),
            bids_base_lots: 0,
            asks_base_lots: 0,
            taker_base_lots: 0,
            taker_quote_lots: 0,
        }
    }

    /// Whether the slot holds a position.
    pub fn is_active(&self) -> (r: bool)
        ensures
            r == self.spec_is_active(),
    {
        self.market_index != FREE_MARKET_INDEX
    }

    /// Whether the slot holds a position in the market `market_index`.
    pub fn is_active_for_market(&self, market_index: u16) -> (r: bool)
        ensures
            r == self.spec_is_active_for_market(market_index),
    {
        self.market_index != FREE_MARKET_INDEX && self.market_index == market_index
    }

    /// The signed number of base lots held.
    pub fn base_position_lots(&self) -> (lots: i64)
        ensures
            lots == self.base_position_lots,
    {
        self.base_position_lots
    }

    /// The quote balance.
    pub fn quote_position_native(&self) -> (quote: I80F48)
        ensures
            quote == self.quote_position_native,
    {
        self.quote_position_native
    }

    /// Whether lots are bound in resting orders or in fills not yet processed.
    pub fn has_open_orders(&self) -> (r: bool)
        ensures
            r == self.spec_has_open_orders(),
    {
        self.asks_base_lots != 0 || self.bids_base_lots != 0 || self.taker_base_lots != 0
            || self.taker_quote_lots != 0
    }

    /// The funding accrued since the last settlement, `None` on overflow.
    pub fn unsettled_funding(&self, market: &PerpMarket) -> (r: Option<I80F48>)
        ensures
            r == self.spec_unsettled_funding(*market),
    {
        if self.base_position_lots == 0 {
            return Some(I80F48::zero());
        }
        let growth = if self.base_position_lots > 0 {
            market.long_funding.checked_sub(self.long_settled_funding)
        } else {
            market.short_funding.checked_sub(self.short_settled_funding)
        };
        match growth {
            Some(g) => g.checked_mul(I80F48::from_num(self.base_position_lots)),
            None => None,
        }
    }

    /// Moves the unsettled funding into the quote balance. On overflow the
    /// position is left as it was.
    pub fn settle_funding(&mut self, market: &PerpMarket) -> (r: Result<(), MangoError>)
        ensures
            match r {
                Ok(_) => old(self).spec_settle_funding(*market) == Some(*final(self)),
                Err(e) => e == MangoError::MathOverflow && old(self).spec_settle_funding(
                    *market,
                ) is None && *final(self) == *old(self),
            },
    {
        let funding = match self.unsettled_funding(market) {
            Some(f) => f,
            None => { return Err(MangoError::MathOverflow); },
        };
        let quote = match self.quote_position_native.checked_sub(funding) {
            Some(q) => q,
            None => { return Err(MangoError::MathOverflow); },
        };
        self.quote_position_native = quote;
        self.long_settled_funding = market.long_funding;
        self.short_settled_funding = market.short_funding;
        Ok(())
    }

    /// Adds `base_change` lots and `quote_change` quote to the position. On
    /// overflow the position is left as it was.
    pub fn change_base_and_quote_positions(
        &mut self,
        base_change: i64,
        quote_change: I80F48,
    ) -> (r: Result<(), MangoError>)
        ensures
            match r {
                Ok(_) => old(self).spec_change_base_and_quote_positions(base_change, quote_change)
                    == Some(*final(self)),
                Err(e) => e == MangoError::MathOverflow && old(
                    self,
                ).spec_change_base_and_quote_positions(base_change, quote_change) is None
                    && *final(self) == *old(self),
            },
    {
        let base: i64 = match self.base_position_lots.checked_add(base_change) {
            Some(b) => b,
            None => { return Err(MangoError::MathOverflow); },
        };
        let quote = match self.quote_position_native.checked_add(quote_change) {
            Some(q) => q,
            None => { return Err(MangoError::MathOverflow); },
        };
        self.base_position_lots = base;
        self.quote_position_native = quote;
        Ok(())
    }
}

/// Settling twice against the same market changes nothing the second time.
pub proof fn lemma_settle_funding_twice(position: PerpPosition, market: PerpMarket)
    requires
        position.spec_settle_funding(market) is Some,
    ensures
        position.spec_settle_funding(market)->0.spec_settle_funding(market)
            == position.spec_settle_funding(market),
{
    let settled = position.spec_settle_funding(market)->0;
    assert(settled.spec_unsettled_funding(market) == Some(I80F48 { bits: 0 })) by {
        if settled.base_position_lots != 0 {
            let lots = I80F48::spec_from_num(settled.base_position_lots);
            assert(crate::i80f48::mul_bits(0, lots.bits as int) == 0) by (nonlinear_arith);
        }
    }
}

} // verus!
