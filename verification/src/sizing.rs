//! How much of an unhealthy position a liquidator takes over, and for what.
//!
//! Taking one lot off a long position raises the victim's initial health by
//! the price of a lot times `1 - asset weight - fee`; taking one lot off a
//! short position raises it by the price of a lot times
//! `liability weight - 1 + fee`. The transfer aims at the number of lots
//! that brings the health to zero, rounded away from zero, and is then held
//! within the position that exists and within the bound the caller asked for.

use vstd::prelude::*;
use crate::error::MangoError;
use crate::i80f48::{ceil_int, div_bits, floor_int, in_i64_range, in_range, I80F48, ONE_BITS};
use crate::perp_market::PerpMarket;

verus! {

/// What changes hands: base lots, seen from the liquidator, and the quote
/// that goes with them.
#[derive(Clone, Copy, Debug, PartialEq, Eq, Structural)]
pub struct Transfer {
    /// Lots the liquidator receives; negative where it takes over a short position.
    pub base_transfer: i64,
    /// Quote the liquidator receives; negative where it pays for a long position.
    pub quote_transfer: I80F48,
}

/// The smaller of two integers.
pub open spec fn min_int(a: int, b: int) -> int {
    if a <= b {
        a
    } else {
        b
    }
}

/// The larger of two integers.
pub open spec fn max_int(a: int, b: int) -> int {
    if a >= b {
        a
    } else {
        b
    }
}

/// The price of one lot: lot size times oracle price.
pub open spec fn spec_price_per_lot(market: PerpMarket, oracle_price: I80F48) -> Option<I80F48> {
    I80F48::spec_from_num(market.base_lot_size).spec_checked_mul(oracle_price)
}

/// Health gained per lot taken off a long position:
/// `price_per_lot * (1 - init_asset_weight - liquidation_fee)`.
pub open spec fn spec_long_health_per_lot(market: PerpMarket, price_per_lot: I80F48) -> Option<
    I80F48,
> {
    match (I80F48 { bits: ONE_BITS }).spec_checked_sub(market.init_asset_weight) {
        Some(a) => match a.spec_checked_sub(market.liquidation_fee) {
            Some(w) => price_per_lot.spec_checked_mul(w),
            None => None,
        },
        None => None,
    }
}

/// Health gained per lot taken off a short position:
/// `price_per_lot * (init_liab_weight - 1 + liquidation_fee)`.
pub open spec fn spec_short_health_per_lot(market: PerpMarket, price_per_lot: I80F48) -> Option<
    I80F48,
> {
    match market.init_liab_weight.spec_checked_sub(I80F48 { bits: ONE_BITS }) {
        Some(a) => match a.spec_checked_add(market.liquidation_fee) {
            Some(w) => price_per_lot.spec_checked_mul(w),
            None => None,
        },
        None => None,
    }
}

/// Lots to take off a long position to bring the health `health` to zero:
/// `-health / health_per_lot`, rounded up. `None` where the negation, the
/// quotient or the rounded count does not fit.
pub open spec fn spec_long_lots_for_zero(health: I80F48, health_per_lot: I80F48) -> Option<i64> {
    if health_per_lot.bits == 0 || health.bits == i128::MIN {
        None
    } else {
        let quotient = div_bits(-health.bits, health_per_lot.bits as int);
        let lots = ceil_int(quotient);
        if in_range(quotient) && in_i64_range(lots) {
            Some(lots as i64)
        } else {
            None
        }
    }
}

/// Lots, as a negative count, to take off a short position to bring the
/// health `health` to zero: `health / health_per_lot`, rounded down. `None`
/// where the quotient or the rounded count does not fit.
pub open spec fn spec_short_lots_for_zero(health: I80F48, health_per_lot: I80F48) -> Option<i64> {
    if health_per_lot.bits == 0 {
        None
    } else {
        let quotient = div_bits(health.bits as int, health_per_lot.bits as int);
        let lots = floor_int(quotient);
        if in_range(quotient) && in_i64_range(lots) {
            Some(lots as i64)
        } else {
            None
        }
    }
}

/// The transfer off a long position: the count for zero health, held to at
/// most the lots that exist, then to at most the bound, then to at least zero.
pub open spec fn spec_clamp_long(lots_for_zero: int, base_lots: int, max_base_transfer: int) -> int {
    max_int(min_int(min_int(lots_for_zero, base_lots), max_base_transfer), 0)
}

/// The transfer off a short position: the count for zero health, held to
/// at least the lots that exist, then to at least the bound, then to at most zero.
pub open spec fn spec_clamp_short(lots_for_zero: int, base_lots: int, max_base_transfer: int) -> int {
    min_int(max_int(max_int(lots_for_zero, base_lots), max_base_transfer), 0)
}

/// The quote that goes with `base_transfer` lots:
/// `-base_transfer * price_per_lot * fee_factor`, each product rounded down.
pub open spec fn spec_quote_transfer(
    base_transfer: i64,
    price_per_lot: I80F48,
    fee_factor: I80F48,
) -> Option<I80F48> {
    match (I80F48 { bits: (-(base_transfer * ONE_BITS)) as i128 }).spec_checked_mul(price_per_lot) {
        Some(value) => value.spec_checked_mul(fee_factor),
        None => None,
    }
}

/// The transfer off a long position of `base_lots` lots.
pub open spec fn spec_long_transfer(
    market: PerpMarket,
    price_per_lot: I80F48,
    health: I80F48,
    base_lots: i64,
    max_base_transfer: i64,
) -> Result<Transfer, MangoError> {
    if max_base_transfer <= 0 {
        Err(MangoError::MaxBaseTransferMustBePositive)
    } else {
        match spec_long_health_per_lot(market, price_per_lot) {
            None => Err(MangoError::MathOverflow),
            Some(health_per_lot) => if health_per_lot.bits <= 0 {
                Err(MangoError::HealthPerLotNotPositive)
            } else {
                match (
                    spec_long_lots_for_zero(health, health_per_lot),
                    (I80F48 { bits: ONE_BITS }).spec_checked_sub(market.liquidation_fee),
                ) {
                    (Some(lots_for_zero), Some(fee_factor)) => {
                        let base_transfer = spec_clamp_long(
                            lots_for_zero as int,
                            base_lots as int,
                            max_base_transfer as int,
                        ) as i64;
                        match spec_quote_transfer(base_transfer, price_per_lot, fee_factor) {
                            Some(quote_transfer) => Ok(Transfer { base_transfer, quote_transfer }),
                            None => Err(MangoError::MathOverflow),
                        }
                    },
                    _ => Err(MangoError::MathOverflow),
                }
            },
        }
    }
}

/// The transfer off a short position of `base_lots` lots.
pub open spec fn spec_short_transfer(
    market: PerpMarket,
    price_per_lot: I80F48,
    health: I80F48,
    base_lots: i64,
    max_base_transfer: i64,
) -> Result<Transfer, MangoError> {
    if max_base_transfer >= 0 {
        Err(MangoError::MaxBaseTransferMustBeNegative)
    } else {
        match spec_short_health_per_lot(market, price_per_lot) {
            None => Err(MangoError::MathOverflow),
            Some(health_per_lot) => if health_per_lot.bits <= 0 {
                Err(MangoError::HealthPerLotNotPositive)
            } else {
                match (
                    spec_short_lots_for_zero(health, health_per_lot),
                    (I80F48 { bits: ONE_BITS }).spec_checked_add(market.liquidation_fee),
                ) {
                    (Some(lots_for_zero), Some(fee_factor)) => {
                        let base_transfer = spec_clamp_short(
                            lots_for_zero as int,
                            base_lots as int,
                            max_base_transfer as int,
                        ) as i64;
                        match spec_quote_transfer(base_transfer, price_per_lot, fee_factor) {
                            Some(quote_transfer) => Ok(Transfer { base_transfer, quote_transfer }),
                            None => Err(MangoError::MathOverflow),
                        }
                    },
                    _ => Err(MangoError::MathOverflow),
                }
            },
        }
    }
}

/// The transfer off a position of `base_lots` lots, long or short.
pub open spec fn spec_base_transfer(
    market: PerpMarket,
    price_per_lot: I80F48,
    health: I80F48,
    base_lots: i64,
    max_base_transfer: i64,
) -> Result<Transfer, MangoError> {
    if base_lots == 0 {
        Err(MangoError::BasePositionIsZero)
    } else if base_lots > 0 {
        spec_long_transfer(market, price_per_lot, health, base_lots, max_base_transfer)
    } else {
        spec_short_transfer(market, price_per_lot, health, base_lots, max_base_transfer)
    }
}

/// The price of one lot, `None` on overflow.
pub fn price_per_lot(market: &PerpMarket, oracle_price: I80F48) -> (r: Option<I80F48>)
    ensures
        r == spec_price_per_lot(*market, oracle_price),
{
    I80F48::from_num(market.base_lot_size).checked_mul(oracle_price)
}

/// Health gained per lot taken off a long position, `None` on overflow.
pub fn long_health_per_lot(market: &PerpMarket, price_per_lot: I80F48) -> (r: Option<I80F48>)
    ensures
        r == spec_long_health_per_lot(*market, price_per_lot),
{
    let quote_asset_weight = I80F48::one();
    let a = quote_asset_weight.checked_sub(market.init_asset_weight)?;
    let w = a.checked_sub(market.liquidation_fee)?;
    price_per_lot.checked_mul(w)
}

/// Health gained per lot taken off a short position, `None` on overflow.
pub fn short_health_per_lot(market: &PerpMarket, price_per_lot: I80F48) -> (r: Option<I80F48>)
    ensures
        r == spec_short_health_per_lot(*market, price_per_lot),
{
    let quote_liab_weight = I80F48::one();
    let a = market.init_liab_weight.checked_sub(quote_liab_weight)?;
    let w = a.checked_add(market.liquidation_fee)?;
    price_per_lot.checked_mul(w)
}

/// Lots to take off a long position to bring `health` to zero, rounded up.
/// `None` where `health_per_lot` is zero or a step overflows.
pub fn long_lots_for_zero(health: I80F48, health_per_lot: I80F48) -> (r: Option<i64>)
    ensures
        r == spec_long_lots_for_zero(health, health_per_lot),
{
    let deficit = health.checked_neg()?;
    let quotient = deficit.checked_div(health_per_lot)?;
    let rounded = quotient.checked_ceil()?;
    rounded.checked_to_num()
}

/// Lots, as a negative count, to take off a short position to bring
/// `health` to zero, rounded down. `None` where `health_per_lot` is zero or
/// a step overflows.
pub fn short_lots_for_zero(health: I80F48, health_per_lot: I80F48) -> (r: Option<i64>)
    ensures
        r == spec_short_lots_for_zero(health, health_per_lot),
{
    let quotient = health.checked_div(health_per_lot)?;
    let rounded = quotient.checked_floor()?;
    rounded.checked_to_num()
}

/// Holds the count for zero health within the long position and the bound.
pub fn clamp_long(lots_for_zero: i64, base_lots: i64, max_base_transfer: i64) -> (t: i64)
    ensures
        t == spec_clamp_long(lots_for_zero as int, base_lots as int, max_base_transfer as int),
        base_lots > 0 && max_base_transfer > 0 ==> 0 <= t <= min_int(
            base_lots as int,
            max_base_transfer as int,
        ),
{
    let mut t: i64 = lots_for_zero;
    if base_lots < t {
        t = base_lots;
    }
    if max_base_transfer < t {
        t = max_base_transfer;
    }
    if t < 0 {
        t = 0;
    }
    t
}

/// Holds the count for zero health within the short position and the bound.
pub fn clamp_short(lots_for_zero: i64, base_lots: i64, max_base_transfer: i64) -> (t: i64)
    ensures
        t == spec_clamp_short(lots_for_zero as int, base_lots as int, max_base_transfer as int),
        base_lots < 0 && max_base_transfer < 0 ==> max_int(
            base_lots as int,
            max_base_transfer as int,
        ) <= t <= 0,
{
    let mut t: i64 = lots_for_zero;
    if base_lots > t {
        t = base_lots;
    }
    if max_base_transfer > t {
        t = max_base_transfer;
    }
    if t > 0 {
        t = 0;
    }
    t
}

/// The quote that goes with `base_transfer` lots, `None` on overflow.
pub fn quote_transfer(base_transfer: i64, price_per_lot: I80F48, fee_factor: I80F48) -> (r: Option<
    I80F48,
>)
    ensures
        r == spec_quote_transfer(base_transfer, price_per_lot, fee_factor),
{
    let lots = I80F48::from_num(base_transfer).checked_neg()?;
    let value = lots.checked_mul(price_per_lot)?;
    value.checked_mul(fee_factor)
}

/// Sizes the take-over of a position of `base_lots` lots from an account
/// whose initial health is `health`, at most `max_base_transfer` lots.
///
/// The bound must have the sign of the position, and a lot taken over must
/// be worth a positive amount of health. A count for zero health that is no
/// `i64` is an overflow, also where position or bound would have held the
/// transfer below it: nothing is saturated and nothing wraps.
pub fn compute_base_transfer(
    market: &PerpMarket,
    price_per_lot: I80F48,
    health: I80F48,
    base_lots: i64,
    max_base_transfer: i64,
) -> (r: Result<Transfer, MangoError>)
    ensures
        r == spec_base_transfer(*market, price_per_lot, health, base_lots, max_base_transfer),
        r matches Ok(t) ==> (base_lots > 0 ==> 0 <= t.base_transfer <= min_int(
            base_lots as int,
            max_base_transfer as int,
        )),
        r matches Ok(t) ==> (base_lots < 0 ==> max_int(
            base_lots as int,
            max_base_transfer as int,
        ) <= t.base_transfer <= 0),
{
    if base_lots == 0 {
        return Err(MangoError::BasePositionIsZero);
    }
    if base_lots > 0 {
        if max_base_transfer <= 0 {
            return Err(MangoError::MaxBaseTransferMustBePositive);
        }
        let health_per_lot = long_health_per_lot(market, price_per_lot).ok_or(
            MangoError::MathOverflow,
        )?;
        if !health_per_lot.is_positive() {
            return Err(MangoError::HealthPerLotNotPositive);
        }
        let lots_for_zero: i64 = long_lots_for_zero(health, health_per_lot).ok_or(
            MangoError::MathOverflow,
        )?;
        let base_transfer: i64 = clamp_long(lots_for_zero, base_lots, max_base_transfer);
        let fee_factor = I80F48::one().checked_sub(market.liquidation_fee).ok_or(
            MangoError::MathOverflow,
        )?;
        let quote = quote_transfer(base_transfer, price_per_lot, fee_factor).ok_or(
            MangoError::MathOverflow,
        )?;
        Ok(Transfer { base_transfer, quote_transfer: quote })
    } else {
        if max_base_transfer >= 0 {
            return Err(MangoError::MaxBaseTransferMustBeNegative);
        }
        let health_per_lot = short_health_per_lot(market, price_per_lot).ok_or(
            MangoError::MathOverflow,
        )?;
        if !health_per_lot.is_positive() {
            return Err(MangoError::HealthPerLotNotPositive);
        }
        let lots_for_zero: i64 = short_lots_for_zero(health, health_per_lot).ok_or(
            MangoError::MathOverflow,
        )?;
        let base_transfer: i64 = clamp_short(lots_for_zero, base_lots, max_base_transfer);
        let fee_factor = I80F48::one().checked_add(market.liquidation_fee).ok_or(
            MangoError::MathOverflow,
        )?;
        let quote = quote_transfer(base_transfer, price_per_lot, fee_factor).ok_or(
            MangoError::MathOverflow,
        )?;
        Ok(Transfer { base_transfer, quote_transfer: quote })
    }
}

/// The victim's initial health, in raw bits, after `base_transfer` lots
/// were taken off its position of `base_lots` lots, where each lot taken
/// is worth `health_per_lot`: lots leave a long position as a positive
/// count and a short position as a negative one.
pub open spec fn spec_projected_health(
    base_lots: int,
    health: int,
    health_per_lot: int,
    base_transfer: int,
) -> int {
    if base_lots > 0 {
        health + base_transfer * health_per_lot
    } else {
        health - base_transfer * health_per_lot
    }
}

/// How far a health is below zero.
pub open spec fn spec_deficit(health: int) -> int {
    if health < 0 {
        -health
    } else {
        0
    }
}

/// `base_transfer` is a transfer that the clamp allows off a position of
/// `base_lots` lots under the bound `max_base_transfer`.
pub open spec fn spec_in_clamp_range(base_lots: int, max_base_transfer: int, base_transfer: int) -> bool {
    if base_lots > 0 {
        0 <= base_transfer <= min_int(base_lots, max_base_transfer)
    } else {
        max_int(base_lots, max_base_transfer) <= base_transfer <= 0
    }
}

/// Off a long position, with a positive bound, the clamp gives a transfer
/// between zero and the smaller of position and bound, whatever the count
/// for zero health is.
pub proof fn lemma_clamp_long_bounds(lots_for_zero: int, base_lots: int, max_base_transfer: int)
    requires
        base_lots > 0,
        max_base_transfer > 0,
    ensures
        0 <= spec_clamp_long(lots_for_zero, base_lots, max_base_transfer) <= min_int(
            base_lots,
            max_base_transfer,
        ),
{
}

/// Off a short position, with a negative bound, the clamp gives a transfer
/// between the larger of position and bound and zero, whatever the count
/// for zero health is.
pub proof fn lemma_clamp_short_bounds(lots_for_zero: int, base_lots: int, max_base_transfer: int)
    requires
        base_lots < 0,
        max_base_transfer < 0,
    ensures
        max_int(base_lots, max_base_transfer) <= spec_clamp_short(
            lots_for_zero,
            base_lots,
            max_base_transfer,
        ) <= 0,
{
}

/// Every transfer that sizing yields lies in the clamp range: between
/// zero and the smaller of position and bound for a long position, between
/// the larger of position and bound and zero for a short one.
pub proof fn lemma_transfer_in_clamp_range(
    market: PerpMarket,
    price_per_lot: I80F48,
    health: I80F48,
    base_lots: i64,
    max_base_transfer: i64,
)
    requires
        spec_base_transfer(market, price_per_lot, health, base_lots, max_base_transfer) is Ok,
    ensures
        spec_base_transfer(market, price_per_lot, health, base_lots, max_base_transfer) matches Ok(
            t,
        ) && spec_in_clamp_range(
            base_lots as int,
            max_base_transfer as int,
            t.base_transfer as int,
        ),
{
}

/// Where taking a lot over is worth a positive amount of health, no
/// transfer in the clamp range leaves the victim with a deeper deficit
/// than it had.
pub proof fn lemma_transfer_never_deepens_deficit(
    base_lots: int,
    max_base_transfer: int,
    health: int,
    health_per_lot: int,
    base_transfer: int,
)
    requires
        health_per_lot > 0,
        spec_in_clamp_range(base_lots, max_base_transfer, base_transfer),
    ensures
        spec_projected_health(base_lots, health, health_per_lot, base_transfer) >= health,
        spec_deficit(spec_projected_health(base_lots, health, health_per_lot, base_transfer))
            <= spec_deficit(health),
{
    if base_lots > 0 {
        assert(base_transfer * health_per_lot >= 0) by (nonlinear_arith)
            requires
                base_transfer >= 0,
                health_per_lot > 0,
        ;
    } else {
        assert(base_transfer * health_per_lot <= 0) by (nonlinear_arith)
            requires
                base_transfer <= 0,
                health_per_lot > 0,
        ;
    }
}

/// The health per lot that sizing works with for a position of
/// `base_lots` lots.
pub open spec fn spec_health_per_lot(market: PerpMarket, price_per_lot: I80F48, base_lots: i64) -> Option<
    I80F48,
> {
    if base_lots > 0 {
        spec_long_health_per_lot(market, price_per_lot)
    } else {
        spec_short_health_per_lot(market, price_per_lot)
    }
}

/// The transfer that sizing yields never leaves the victim with a deeper
/// deficit than it had, measured with the health per lot that sizing used.
pub proof fn lemma_sized_transfer_never_deepens_deficit(
    market: PerpMarket,
    price_per_lot: I80F48,
    health: I80F48,
    base_lots: i64,
    max_base_transfer: i64,
)
    requires
        spec_base_transfer(market, price_per_lot, health, base_lots, max_base_transfer) is Ok,
    ensures
        spec_base_transfer(market, price_per_lot, health, base_lots, max_base_transfer) matches Ok(
            t,
        ) && spec_health_per_lot(market, price_per_lot, base_lots) matches Some(s) && s.bits > 0
            && spec_deficit(
            spec_projected_health(
                base_lots as int,
                health.bits as int,
                s.bits as int,
                t.base_transfer as int,
            ),
        ) <= spec_deficit(health.bits as int),
{
    let t = spec_base_transfer(market, price_per_lot, health, base_lots, max_base_transfer)->Ok_0;
    let s = spec_health_per_lot(market, price_per_lot, base_lots)->0;
    lemma_transfer_in_clamp_range(market, price_per_lot, health, base_lots, max_base_transfer);
    lemma_transfer_never_deepens_deficit(
        base_lots as int,
        max_base_transfer as int,
        health.bits as int,
        s.bits as int,
        t.base_transfer as int,
    );
}

/// At a price that is not negative and with a fee between zero and one,
/// quote flows against the lots: the liquidator pays for the lots it takes
/// off a long position and is paid for those it takes off a short one.
pub proof fn lemma_quote_flows_against_base(
    market: PerpMarket,
    price_per_lot: I80F48,
    health: I80F48,
    base_lots: i64,
    max_base_transfer: i64,
)
    requires
        price_per_lot.bits >= 0,
        market.spec_has_valid_fee(),
        spec_base_transfer(market, price_per_lot, health, base_lots, max_base_transfer) is Ok,
    ensures
        spec_base_transfer(market, price_per_lot, health, base_lots, max_base_transfer) matches Ok(
            t,
        ) && (base_lots > 0 ==> t.quote_transfer.bits <= 0) && (base_lots < 0
            ==> t.quote_transfer.bits >= 0),
{
    let t = spec_base_transfer(market, price_per_lot, health, base_lots, max_base_transfer)->Ok_0;
    lemma_transfer_in_clamp_range(market, price_per_lot, health, base_lots, max_base_transfer);
    let one = ONE_BITS as int;
    let lots = -(t.base_transfer * one);
    let price = price_per_lot.bits as int;
    let value = crate::i80f48::mul_bits(lots, price);
    let factor = if base_lots > 0 {
        one - market.liquidation_fee.bits
    } else {
        one + market.liquidation_fee.bits
    };
    assert(factor > 0);
    if base_lots > 0 {
        assert(lots * price <= 0) by (nonlinear_arith)
            requires
                lots <= 0,
                price >= 0,
        ;
        assert(value <= 0);
        assert(value * factor <= 0) by (nonlinear_arith)
            requires
                value <= 0,
                factor > 0,
        ;
    } else {
        assert(lots * price >= 0) by (nonlinear_arith)
            requires
                lots >= 0,
                price >= 0,
        ;
        assert(value >= 0);
        assert(value * factor >= 0) by (nonlinear_arith)
            requires
                value >= 0,
                factor > 0,
        ;
    }
}

/// For a deficit `deficit` and a worth `health_per_lot` of one lot, both
/// in raw bits: the quotient rounded towards zero and then up to a whole
/// number is a count of lots whose worth misses the deficit by less than
/// 2^-48 of a lot's worth, while one lot fewer does not reach it.
proof fn lemma_rounded_count(deficit: int, health_per_lot: int)
    requires
        deficit >= 0,
        health_per_lot > 0,
    ensures
        ({
            let lots = ceil_int(div_bits(deficit, health_per_lot));
            &&& lots >= 0
            &&& lots * health_per_lot * ONE_BITS + health_per_lot > deficit * ONE_BITS
            &&& lots >= 1 ==> (lots - 1) * health_per_lot < deficit
            &&& floor_int(div_bits(-deficit, health_per_lot)) == -lots
        }),
{
    let one = ONE_BITS as int;
    let scaled = deficit * one;
    let quotient = scaled / health_per_lot;
    let lots = ceil_int(quotient);
    assert(scaled >= 0) by (nonlinear_arith)
        requires
            scaled == deficit * one,
            deficit >= 0,
            one > 0,
    ;
    assert((-deficit) * one == -scaled) by (nonlinear_arith)
        requires
            scaled == deficit * one,
    ;
    assert(div_bits(deficit, health_per_lot) == quotient);
    assert(div_bits(-deficit, health_per_lot) == -quotient);
    vstd::arithmetic::div_mod::lemma_fundamental_div_mod(scaled, health_per_lot);
    vstd::arithmetic::div_mod::lemma_mod_bound(scaled, health_per_lot);
    let rest = scaled % health_per_lot;
    assert(scaled == health_per_lot * quotient + rest);
    assert(quotient >= 0) by (nonlinear_arith)
        requires
            scaled == health_per_lot * quotient + rest,
            scaled >= 0,
            0 <= rest < health_per_lot,
    ;
    assert(quotient <= lots * one < quotient + one);
    assert(lots * health_per_lot * one + health_per_lot > scaled) by (nonlinear_arith)
        requires
            scaled == health_per_lot * quotient + rest,
            0 <= rest < health_per_lot,
            quotient <= lots * one,
    ;
    if lots >= 1 {
        assert((lots - 1) * health_per_lot * one < deficit * one) by (nonlinear_arith)
            requires
                scaled == deficit * one,
                scaled == health_per_lot * quotient + rest,
                0 <= rest < health_per_lot,
                lots * one < quotient + one,
                one > 0,
        ;
        assert((lots - 1) * health_per_lot < deficit) by (nonlinear_arith)
            requires
                (lots - 1) * health_per_lot * one < deficit * one,
                one > 0,
        ;
    }
}

/// Rounding up serves the victim. Where its health is negative, the count
/// for zero health off a long position leaves, taken in full, less than
/// 2^-48 of a lot's worth of deficit, and none at all where a lot is worth
/// at most one; one lot fewer would leave the health negative.
pub proof fn lemma_long_count_closes_the_deficit(health: I80F48, health_per_lot: I80F48)
    requires
        health.bits < 0,
        health_per_lot.bits > 0,
        spec_long_lots_for_zero(health, health_per_lot) is Some,
    ensures
        ({
            let lots = spec_long_lots_for_zero(health, health_per_lot)->0;
            let worth = health_per_lot.bits as int;
            &&& lots >= 0
            &&& spec_projected_health(1, health.bits as int, worth, lots as int) * ONE_BITS + worth
                > 0
            &&& worth <= ONE_BITS ==> spec_projected_health(1, health.bits as int, worth, lots as int)
                >= 0
            &&& lots >= 1 ==> spec_projected_health(1, health.bits as int, worth, lots - 1) < 0
        }),
{
    let lots = spec_long_lots_for_zero(health, health_per_lot)->0 as int;
    let worth = health_per_lot.bits as int;
    lemma_rounded_count(-health.bits, worth);
    assert((health.bits + lots * worth) * ONE_BITS == lots * worth * ONE_BITS - (-health.bits)
        * ONE_BITS) by (nonlinear_arith);
}

/// Rounding down serves the victim of a short position in the same way:
/// the count for zero health, a negative number of lots, leaves, taken in
/// full, less than 2^-48 of a lot's worth of deficit, and none at all where
/// a lot is worth at most one; one lot fewer would leave the health negative.
pub proof fn lemma_short_count_closes_the_deficit(health: I80F48, health_per_lot: I80F48)
    requires
        health.bits < 0,
        health_per_lot.bits > 0,
        spec_short_lots_for_zero(health, health_per_lot) is Some,
    ensures
        ({
            let lots = spec_short_lots_for_zero(health, health_per_lot)->0;
            let worth = health_per_lot.bits as int;
            &&& lots <= 0
            &&& spec_projected_health(-1, health.bits as int, worth, lots as int) * ONE_BITS + worth
                > 0
            &&& worth <= ONE_BITS ==> spec_projected_health(
                -1,
                health.bits as int,
                worth,
                lots as int,
            ) >= 0
            &&& lots <= -1 ==> spec_projected_health(-1, health.bits as int, worth, lots + 1) < 0
        }),
{
    let lots = spec_short_lots_for_zero(health, health_per_lot)->0 as int;
    let worth = health_per_lot.bits as int;
    let count = ceil_int(div_bits(-health.bits, worth));
    lemma_rounded_count(-health.bits, worth);
    assert(lots == -count);
    assert((health.bits - lots * worth) * ONE_BITS == count * worth * ONE_BITS - (-health.bits)
        * ONE_BITS) by (nonlinear_arith)
        requires
            lots == -count,
    ;
    assert(health.bits - (lots + 1) * worth == health.bits + (count - 1) * worth)
        by (nonlinear_arith)
        requires
            lots == -count,
    ;
}

} // verus!
