//! The forced take-over of a perpetual base position.
//!
//! The health of an account and the price of a market are computed
//! elsewhere, so a liquidation is a sequence of decisions, each of which
//! asks only for what it needs:
//!
//! 1. `check_liqor` looks at the liquidator and needs nothing else;
//! 2. `perp_liq_base_position_enter` needs the victim's health and decides
//!    whether the victim has recovered, may be liquidated, or is refused;
//! 3. `take_over` needs the oracle price and computes the accounts as
//!    they are after the transfer;
//! 4. `perp_liq_base_position_finish` needs the health of those accounts
//!    and gives back the accounts to store.
//!
//! `perp_liq_base_position` is the second step followed by the third, for a
//! caller that has health and price at hand. No step writes to the accounts
//! it was given: a step that fails leaves nothing behind.

use vstd::prelude::*;
use crate::error::MangoError;
use crate::i80f48::I80F48;
use crate::mango_account::MangoAccount;
use crate::perp_market::PerpMarket;
use crate::perp_position::PerpPosition;
use crate::pubkey::Pubkey;
use crate::sizing::{compute_base_transfer, price_per_lot, spec_base_transfer, spec_price_per_lot, Transfer};

verus! {

/// The records a liquidation works on.
#[derive(Clone, Copy, Debug, PartialEq, Eq)]
pub struct PerpLiqBasePosition {
    pub perp_market: PerpMarket,
    /// The account that takes the position over.
    pub liqor: MangoAccount,
    /// Who asked for the liquidation in the liquidator's name.
    pub liqor_owner: Pubkey,
    /// The account whose position is taken over.
    pub liqee: MangoAccount,
}

/// How the first step of a liquidation ended.
#[derive(Clone, Copy, Debug, PartialEq, Eq)]
pub enum LiqStep {
    /// The victim had recovered already: its liquidation ends and nothing is transferred.
    Recovered(PerpLiqBasePosition),
    /// The transfer was applied to `accounts`, whose health is now to be checked.
    Transferred { accounts: PerpLiqBasePosition, transfer: Transfer },
}

/// How the entry into a liquidation ended.
#[derive(Clone, Copy, Debug, PartialEq, Eq)]
pub enum LiqEntry {
    /// The victim had recovered already: its liquidation ends and nothing is transferred.
    Recovered(PerpLiqBasePosition),
    /// The victim is under liquidation in these accounts, and the take-over may go on.
    Proceed(PerpLiqBasePosition),
}

/// Both positions after `transfer`: the victim gives the base lots and the
/// quote, the liquidator receives the same amounts. `None` on overflow.
pub open spec fn spec_apply_transfer(
    liqee_position: PerpPosition,
    liqor_position: PerpPosition,
    transfer: Transfer,
) -> Option<(PerpPosition, PerpPosition)> {
    if transfer.base_transfer == i64::MIN {
        None
    } else {
        match transfer.quote_transfer.spec_checked_neg() {
            Some(quote_given) => match (
                liqee_position.spec_change_base_and_quote_positions(
                    (-transfer.base_transfer) as i64,
                    quote_given,
                ),
                liqor_position.spec_change_base_and_quote_positions(
                    transfer.base_transfer,
                    transfer.quote_transfer,
                ),
            ) {
                (Some(liqee_after), Some(liqor_after)) => Some((liqee_after, liqor_after)),
                _ => None,
            },
            None => None,
        }
    }
}

/// The accounts after the take-over, and what was transferred: funding is
/// settled on both positions, the transfer is sized on the victim's
/// position and health, and applied to both positions.
pub open spec fn spec_take_over(
    accounts: PerpLiqBasePosition,
    max_base_transfer: i64,
    liqee_init_health: I80F48,
    oracle_price: I80F48,
) -> Result<(PerpLiqBasePosition, Transfer), MangoError> {
    let market = accounts.perp_market;
    match spec_price_per_lot(market, oracle_price) {
        None => Err(MangoError::MathOverflow),
        Some(price) => match accounts.liqee.spec_perp_position_index(market.perp_market_index) {
            None => Err(MangoError::PerpPositionDoesNotExist),
            Some(liqee_slot) => match accounts.liqor.spec_ensure_perp_position(
                market.perp_market_index,
            ) {
                Err(e) => Err(e),
                Ok((liqor, liqor_slot)) => if accounts.liqee.perps[liqee_slot].spec_has_open_orders() {
                    Err(MangoError::HasOpenPerpOrders)
                } else {
                    match (
                        accounts.liqee.perps[liqee_slot].spec_settle_funding(market),
                        liqor.perps[liqor_slot].spec_settle_funding(market),
                    ) {
                        (Some(liqee_settled), Some(liqor_settled)) => match spec_base_transfer(
                            market,
                            price,
                            liqee_init_health,
                            liqee_settled.base_position_lots,
                            max_base_transfer,
                        ) {
                            Err(e) => Err(e),
                            Ok(transfer) => match spec_apply_transfer(
                                liqee_settled,
                                liqor_settled,
                                transfer,
                            ) {
                                Some((liqee_after, liqor_after)) => Ok(
                                    (
                                        PerpLiqBasePosition {
                                            liqee: accounts.liqee.spec_with_perp_position(
                                                liqee_slot,
                                                liqee_after,
                                            ),
                                            liqor: liqor.spec_with_perp_position(
                                                liqor_slot,
                                                liqor_after,
                                            ),
                                            ..accounts
                                        },
                                        transfer,
                                    ),
                                ),
                                None => Err(MangoError::MathOverflow),
                            },
                        },
                        _ => Err(MangoError::MathOverflow),
                    }
                },
            },
        },
    }
}

/// Whether the liquidator may liquidate: whoever asks in its name must be
/// its owner or its delegate, and it must not be under liquidation itself.
pub open spec fn spec_check_liqor(accounts: PerpLiqBasePosition) -> Result<(), MangoError> {
    if !accounts.liqor.spec_is_owner_or_delegate(accounts.liqor_owner) {
        Err(MangoError::InvalidOwnerOrDelegate)
    } else if accounts.liqor.being_liquidated {
        Err(MangoError::BeingLiquidated)
    } else {
        Ok(())
    }
}

/// The entry into a liquidation.
///
/// The liquidator is checked first. A victim under liquidation whose
/// initial health is not negative has recovered: its liquidation ends. A
/// victim not under liquidation enters it only with a negative maintenance
/// health. In every other case the victim is under liquidation from here on.
pub open spec fn spec_perp_liq_base_position_enter(
    accounts: PerpLiqBasePosition,
    liqee_init_health: I80F48,
    liqee_maint_health: I80F48,
) -> Result<LiqEntry, MangoError> {
    match spec_check_liqor(accounts) {
        Err(e) => Err(e),
        Ok(_) => if accounts.liqee.being_liquidated && liqee_init_health.bits >= 0 {
            Ok(
                LiqEntry::Recovered(
                    PerpLiqBasePosition {
                        liqee: accounts.liqee.spec_with_being_liquidated(false),
                        ..accounts
                    },
                ),
            )
        } else if !accounts.liqee.being_liquidated && liqee_maint_health.bits >= 0 {
            Err(MangoError::HealthMustBeNegative)
        } else {
            Ok(
                LiqEntry::Proceed(
                    PerpLiqBasePosition {
                        liqee: accounts.liqee.spec_with_being_liquidated(true),
                        ..accounts
                    },
                ),
            )
        },
    }
}

/// The entry into a liquidation followed, where the victim may be
/// liquidated, by the take-over.
pub open spec fn spec_perp_liq_base_position(
    accounts: PerpLiqBasePosition,
    max_base_transfer: i64,
    liqee_init_health: I80F48,
    liqee_maint_health: I80F48,
    oracle_price: I80F48,
) -> Result<LiqStep, MangoError> {
    match spec_perp_liq_base_position_enter(accounts, liqee_init_health, liqee_maint_health) {
        Err(e) => Err(e),
        Ok(LiqEntry::Recovered(after)) => Ok(LiqStep::Recovered(after)),
        Ok(LiqEntry::Proceed(entered)) => match spec_take_over(
            entered,
            max_base_transfer,
            liqee_init_health,
            oracle_price,
        ) {
            Ok((after, transfer)) => Ok(LiqStep::Transferred { accounts: after, transfer }),
            Err(e) => Err(e),
        },
    }
}

/// The last step of a liquidation, on the accounts after the transfer: the
/// liquidator must not be left with a negative initial health, and a victim
/// whose initial health is no longer negative has recovered.
pub open spec fn spec_perp_liq_base_position_finish(
    accounts: PerpLiqBasePosition,
    liqee_init_health: I80F48,
    liqor_init_health: I80F48,
) -> Result<PerpLiqBasePosition, MangoError> {
    if liqor_init_health.bits < 0 {
        Err(MangoError::HealthMustBePositive)
    } else {
        Ok(PerpLiqBasePosition { liqee: accounts.liqee.spec_recover(liqee_init_health), ..accounts })
    }
}

/// Applies `transfer` to both positions: the victim's position gives what
/// the liquidator's position receives. `None` on overflow.
pub fn apply_transfer(
    liqee_position: &PerpPosition,
    liqor_position: &PerpPosition,
    transfer: &Transfer,
) -> (r: Option<(PerpPosition, PerpPosition)>)
    ensures
        r == spec_apply_transfer(*liqee_position, *liqor_position, *transfer),
{
    if transfer.base_transfer == i64::MIN {
        return None;
    }
    let base_given: i64 = -transfer.base_transfer;
    let quote_given = transfer.quote_transfer.checked_neg()?;
    let mut liqee_after = *liqee_position;
    let mut liqor_after = *liqor_position;
    if liqee_after.change_base_and_quote_positions(base_given, quote_given).is_err() {
        return None;
    }
    if liqor_after.change_base_and_quote_positions(
        transfer.base_transfer,
        transfer.quote_transfer,
    ).is_err() {
        return None;
    }
    Some((liqee_after, liqor_after))
}

/// Settles funding on both positions, sizes the transfer and applies it.
/// Gives back the accounts after the transfer and what was transferred.
pub fn take_over(
    accounts: &PerpLiqBasePosition,
    max_base_transfer: i64,
    liqee_init_health: I80F48,
    oracle_price: I80F48,
) -> (r: Result<(PerpLiqBasePosition, Transfer), MangoError>)
    ensures
        r == spec_take_over(*accounts, max_base_transfer, liqee_init_health, oracle_price),
{
    let market = accounts.perp_market;
    let price = price_per_lot(&market, oracle_price).ok_or(MangoError::MathOverflow)?;
    let mut liqee = accounts.liqee;
    let mut liqor = accounts.liqor;
    let liqee_slot: usize = liqee.perp_position_index(market.perp_market_index).ok_or(
        MangoError::PerpPositionDoesNotExist,
    )?;
    let liqor_slot: usize = liqor.ensure_perp_position(market.perp_market_index)?;
    let mut liqee_position = liqee.perps[liqee_slot];
    let mut liqor_position = liqor.perps[liqor_slot];
    if liqee_position.has_open_orders() {
        return Err(MangoError::HasOpenPerpOrders);
    }
    liqee_position.settle_funding(&market)?;
    liqor_position.settle_funding(&market)?;
    let transfer = compute_base_transfer(
        &market,
        price,
        liqee_init_health,
        liqee_position.base_position_lots(),
        max_base_transfer,
    )?;
    let (liqee_after, liqor_after) = apply_transfer(
        &liqee_position,
        &liqor_position,
        &transfer,
    ).ok_or(MangoError::MathOverflow)?;
    liqee.set_perp_position(liqee_slot, liqee_after);
    liqor.set_perp_position(liqor_slot, liqor_after);
    Ok(
        (
            PerpLiqBasePosition {
                perp_market: market,
                liqor,
                liqor_owner: accounts.liqor_owner,
                liqee,
            },
            transfer,
        ),
    )
}

/// Checks the liquidator: whoever asks in its name must be its owner or its
/// delegate, and it must not be under liquidation itself.
pub fn check_liqor(accounts: &PerpLiqBasePosition) -> (r: Result<(), MangoError>)
    ensures
        r == spec_check_liqor(*accounts),
{
    if !accounts.liqor.is_owner_or_delegate(accounts.liqor_owner) {
        return Err(MangoError::InvalidOwnerOrDelegate);
    }
    if accounts.liqor.being_liquidated() {
        return Err(MangoError::BeingLiquidated);
    }
    Ok(())
}

/// The entry into a liquidation: checks the liquidator and decides, on the
/// victim's health before the liquidation, whether the victim has
/// recovered, may be liquidated, or is refused. The maintenance health is
/// looked at only for a victim that is not under liquidation yet.
pub fn perp_liq_base_position_enter(
    accounts: &PerpLiqBasePosition,
    liqee_init_health: I80F48,
    liqee_maint_health: I80F48,
) -> (r: Result<LiqEntry, MangoError>)
    ensures
        r == spec_perp_liq_base_position_enter(*accounts, liqee_init_health, liqee_maint_health),
{
    check_liqor(accounts)?;
    let mut liqee = accounts.liqee;
    if liqee.being_liquidated() {
        if liqee.maybe_recover_from_being_liquidated(liqee_init_health) {
            return Ok(
                LiqEntry::Recovered(
                    PerpLiqBasePosition {
                        perp_market: accounts.perp_market,
                        liqor: accounts.liqor,
                        liqor_owner: accounts.liqor_owner,
                        liqee,
                    },
                ),
            );
        }
    } else {
        if !liqee_maint_health.is_negative() {
            return Err(MangoError::HealthMustBeNegative);
        }
        liqee.set_being_liquidated(true);
    }
    Ok(
        LiqEntry::Proceed(
            PerpLiqBasePosition {
                perp_market: accounts.perp_market,
                liqor: accounts.liqor,
                liqor_owner: accounts.liqor_owner,
                liqee,
            },
        ),
    )
}

/// The entry into a liquidation and the take-over in one call: checks that
/// the liquidation may take place and computes the accounts after the
/// transfer of at most `max_base_transfer` lots. `liqee_init_health` and
/// `liqee_maint_health` are the victim's health before the liquidation,
/// `oracle_price` the price of one native base unit.
pub fn perp_liq_base_position(
    accounts: &PerpLiqBasePosition,
    max_base_transfer: i64,
    liqee_init_health: I80F48,
    liqee_maint_health: I80F48,
    oracle_price: I80F48,
) -> (r: Result<LiqStep, MangoError>)
    ensures
        r == spec_perp_liq_base_position(
            *accounts,
            max_base_transfer,
            liqee_init_health,
            liqee_maint_health,
            oracle_price,
        ),
{
    match perp_liq_base_position_enter(accounts, liqee_init_health, liqee_maint_health)? {
        LiqEntry::Recovered(after) => Ok(LiqStep::Recovered(after)),
        LiqEntry::Proceed(entered) => {
            let (after, transfer) = take_over(
                &entered,
                max_base_transfer,
                liqee_init_health,
                oracle_price,
            )?;
            Ok(LiqStep::Transferred { accounts: after, transfer })
        },
    }
}

/// The last step of a liquidation. `accounts` are the accounts after the
/// transfer, `liqee_init_health` and `liqor_init_health` the initial health
/// of the victim and of the liquidator in that state. A liquidator left
/// with a negative health refuses the whole liquidation.
pub fn perp_liq_base_position_finish(
    accounts: &PerpLiqBasePosition,
    liqee_init_health: I80F48,
    liqor_init_health: I80F48,
) -> (r: Result<PerpLiqBasePosition, MangoError>)
    ensures
        r == spec_perp_liq_base_position_finish(*accounts, liqee_init_health, liqor_init_health),
        liqor_init_health.bits < 0 ==> r == Err::<PerpLiqBasePosition, MangoError>(
            MangoError::HealthMustBePositive,
        ),
{
    if liqor_init_health.is_negative() {
        return Err(MangoError::HealthMustBePositive);
    }
    let mut liqee = accounts.liqee;
    liqee.maybe_recover_from_being_liquidated(liqee_init_health);
    Ok(
        PerpLiqBasePosition {
            perp_market: accounts.perp_market,
            liqor: accounts.liqor,
            liqor_owner: accounts.liqor_owner,
            liqee,
        },
    )
}

/// The liquidation in one call decides what its steps decide one after
/// another: it fails where the entry fails, ends where the entry finds the
/// victim recovered, and else gives what the take-over gives on the
/// accounts that the entry hands on.
pub proof fn lemma_one_call_is_entry_then_take_over(
    accounts: PerpLiqBasePosition,
    max_base_transfer: i64,
    liqee_init_health: I80F48,
    liqee_maint_health: I80F48,
    oracle_price: I80F48,
)
    ensures
        spec_perp_liq_base_position(
            accounts,
            max_base_transfer,
            liqee_init_health,
            liqee_maint_health,
            oracle_price,
        ) == (match spec_perp_liq_base_position_enter(
            accounts,
            liqee_init_health,
            liqee_maint_health,
        ) {
            Err(e) => Err::<LiqStep, MangoError>(e),
            Ok(LiqEntry::Recovered(after)) => Ok(LiqStep::Recovered(after)),
            Ok(LiqEntry::Proceed(entered)) => match spec_take_over(
                entered,
                max_base_transfer,
                liqee_init_health,
                oracle_price,
            ) {
                Ok((after, transfer)) => Ok(LiqStep::Transferred { accounts: after, transfer }),
                Err(e) => Err(e),
            },
        }),
        spec_check_liqor(accounts) matches Err(e) ==> spec_perp_liq_base_position_enter(
            accounts,
            liqee_init_health,
            liqee_maint_health,
        ) == Err::<LiqEntry, MangoError>(e),
        spec_perp_liq_base_position_enter(accounts, liqee_init_health, liqee_maint_health) matches Ok(
            LiqEntry::Proceed(entered),
        ) ==> entered.liqee.being_liquidated && entered == (PerpLiqBasePosition {
            liqee: accounts.liqee.spec_with_being_liquidated(true),
            ..accounts
        }),
{
}

/// A liquidation that leaves the liquidator with a negative initial health
/// never succeeds, and one that leaves it with a health that is not
/// negative always does.
pub proof fn lemma_finish_succeeds_iff_liqor_is_healthy(
    accounts: PerpLiqBasePosition,
    liqee_init_health: I80F48,
    liqor_init_health: I80F48,
)
    ensures
        spec_perp_liq_base_position_finish(accounts, liqee_init_health, liqor_init_health) is Ok
            <==> liqor_init_health.bits >= 0,
        liqor_init_health.bits < 0 ==> spec_perp_liq_base_position_finish(
            accounts,
            liqee_init_health,
            liqor_init_health,
        ) == Err::<PerpLiqBasePosition, MangoError>(MangoError::HealthMustBePositive),
{
}

/// What the victim's position gives, the liquidator's position receives:
/// the two positions together hold as many base lots and as much quote
/// after a transfer as before it, and nothing else in them changes.
pub proof fn lemma_transfer_conserves(
    liqee_position: PerpPosition,
    liqor_position: PerpPosition,
    transfer: Transfer,
)
    requires
        spec_apply_transfer(liqee_position, liqor_position, transfer) is Some,
    ensures
        ({
            let (liqee_after, liqor_after) = spec_apply_transfer(
                liqee_position,
                liqor_position,
                transfer,
            )->0;
            &&& liqee_after.base_position_lots + liqor_after.base_position_lots
                == liqee_position.base_position_lots + liqor_position.base_position_lots
            &&& liqee_after.quote_position_native.bits + liqor_after.quote_position_native.bits
                == liqee_position.quote_position_native.bits
                + liqor_position.quote_position_native.bits
            &&& liqor_after.base_position_lots == liqor_position.base_position_lots
                + transfer.base_transfer
            &&& liqor_after.quote_position_native.bits == liqor_position.quote_position_native.bits
                + transfer.quote_transfer.bits
            &&& liqee_after == (PerpPosition {
                base_position_lots: liqee_after.base_position_lots,
                quote_position_native: liqee_after.quote_position_native,
                ..liqee_position
            })
            &&& liqor_after == (PerpPosition {
                base_position_lots: liqor_after.base_position_lots,
                quote_position_native: liqor_after.quote_position_native,
                ..liqor_position
            })
        }),
{
}

/// A liquidation asked for by an authorised liquidator, itself not under
/// liquidation, against a victim that is under liquidation and whose
/// initial health is not negative succeeds without a transfer: the market,
/// the liquidator and every position stay as they were, and of the victim
/// only the liquidation flag changes, which is cleared.
pub proof fn lemma_recovered_victim_is_left_alone(
    accounts: PerpLiqBasePosition,
    max_base_transfer: i64,
    liqee_init_health: I80F48,
    liqee_maint_health: I80F48,
    oracle_price: I80F48,
)
    requires
        accounts.liqor.spec_is_owner_or_delegate(accounts.liqor_owner),
        !accounts.liqor.being_liquidated,
        accounts.liqee.being_liquidated,
        liqee_init_health.bits >= 0,
    ensures
        spec_perp_liq_base_position(
            accounts,
            max_base_transfer,
            liqee_init_health,
            liqee_maint_health,
            oracle_price,
        ) matches Ok(LiqStep::Recovered(after)) && after.perp_market == accounts.perp_market
            && after.liqor == accounts.liqor && after.liqor_owner == accounts.liqor_owner
            && after.liqee == (MangoAccount { being_liquidated: false, ..accounts.liqee }),
{
}

/// A victim that is not under liquidation and whose maintenance health is
/// not negative never enters liquidation: the request is refused, and for
/// that reason where nothing is wrong with the liquidator.
pub proof fn lemma_healthy_victim_is_refused(
    accounts: PerpLiqBasePosition,
    max_base_transfer: i64,
    liqee_init_health: I80F48,
    liqee_maint_health: I80F48,
    oracle_price: I80F48,
)
    requires
        !accounts.liqee.being_liquidated,
        liqee_maint_health.bits >= 0,
    ensures
        spec_perp_liq_base_position(
            accounts,
            max_base_transfer,
            liqee_init_health,
            liqee_maint_health,
            oracle_price,
        ) is Err,
        accounts.liqor.spec_is_owner_or_delegate(accounts.liqor_owner)
            && !accounts.liqor.being_liquidated ==> spec_perp_liq_base_position(
            accounts,
            max_base_transfer,
            liqee_init_health,
            liqee_maint_health,
            oracle_price,
        ) == Err::<LiqStep, MangoError>(MangoError::HealthMustBeNegative),
{
}

/// Where a transfer took place, the victim is under liquidation in the
/// accounts that the first step gives back, and what changed hands lies in
/// the clamp range of the victim's position and the bound.
pub proof fn lemma_transferred_step(
    accounts: PerpLiqBasePosition,
    max_base_transfer: i64,
    liqee_init_health: I80F48,
    liqee_maint_health: I80F48,
    oracle_price: I80F48,
)
    requires
        spec_perp_liq_base_position(
            accounts,
            max_base_transfer,
            liqee_init_health,
            liqee_maint_health,
            oracle_price,
        ) matches Ok(LiqStep::Transferred { .. }),
    ensures
        spec_perp_liq_base_position(
            accounts,
            max_base_transfer,
            liqee_init_health,
            liqee_maint_health,
            oracle_price,
        ) matches Ok(LiqStep::Transferred { accounts: after, transfer })
            && after.liqee.being_liquidated && (accounts.liqee.spec_perp_position_index(
            accounts.perp_market.perp_market_index,
        ) matches Some(slot) && crate::sizing::spec_in_clamp_range(
            accounts.liqee.perps[slot].base_position_lots as int,
            max_base_transfer as int,
            transfer.base_transfer as int,
        )),
{
    let entered = PerpLiqBasePosition {
        liqee: accounts.liqee.spec_with_being_liquidated(true),
        ..accounts
    };
    let market = accounts.perp_market;
    let price = spec_price_per_lot(market, oracle_price)->0;
    let slot = entered.liqee.spec_perp_position_index(market.perp_market_index)->0;
    let settled = entered.liqee.perps[slot].spec_settle_funding(market)->0;
    crate::sizing::lemma_transfer_in_clamp_range(
        market,
        price,
        liqee_init_health,
        settled.base_position_lots,
        max_base_transfer,
    );
}

/// What a transfer touches: of the victim, the liquidation flag, which is
/// set, and its position in the market; of the liquidator, its position in
/// the market, which is created where there was none. Both positions leave
/// with their funding settled, the victim's with the transferred lots
/// taken from it, the liquidator's with those lots added. The market, who
/// may act for the accounts, and every other position stay as they were.
pub proof fn lemma_transfer_touches_one_position_each(
    accounts: PerpLiqBasePosition,
    max_base_transfer: i64,
    liqee_init_health: I80F48,
    liqee_maint_health: I80F48,
    oracle_price: I80F48,
)
    requires
        spec_perp_liq_base_position(
            accounts,
            max_base_transfer,
            liqee_init_health,
            liqee_maint_health,
            oracle_price,
        ) matches Ok(LiqStep::Transferred { .. }),
    ensures
        spec_perp_liq_base_position(
            accounts,
            max_base_transfer,
            liqee_init_health,
            liqee_maint_health,
            oracle_price,
        ) matches Ok(LiqStep::Transferred { accounts: after, transfer }) && ({
            let market = accounts.perp_market;
            let liqee_slot = accounts.liqee.spec_perp_position_index(market.perp_market_index)->0;
            let (liqor, liqor_slot) = accounts.liqor.spec_ensure_perp_position(
                market.perp_market_index,
            )->Ok_0;
            let liqee_before = accounts.liqee.perps[liqee_slot];
            let liqor_before = liqor.perps[liqor_slot];
            let liqee_after = after.liqee.perps[liqee_slot];
            let liqor_after = after.liqor.perps[liqor_slot];
            &&& after.perp_market == market
            &&& after.liqor_owner == accounts.liqor_owner
            &&& after.liqee == (MangoAccount {
                being_liquidated: true,
                perps: after.liqee.perps,
                ..accounts.liqee
            })
            &&& after.liqor == (MangoAccount { perps: after.liqor.perps, ..accounts.liqor })
            &&& 0 <= liqee_slot < crate::mango_account::MAX_PERP_POSITIONS
            &&& 0 <= liqor_slot < crate::mango_account::MAX_PERP_POSITIONS
            &&& forall|i: int|
                0 <= i < crate::mango_account::MAX_PERP_POSITIONS && i != liqee_slot
                    ==> after.liqee.perps[i] == accounts.liqee.perps[i]
            &&& forall|i: int|
                0 <= i < crate::mango_account::MAX_PERP_POSITIONS && i != liqor_slot
                    ==> after.liqor.perps[i] == accounts.liqor.perps[i]
            &&& liqor_before == (if accounts.liqor.spec_perp_position_index(
                market.perp_market_index,
            ) is Some {
                accounts.liqor.perps[liqor_slot]
            } else {
                PerpPosition::spec_new(market.perp_market_index)
            })
            &&& liqee_after == (PerpPosition {
                base_position_lots: (liqee_before.base_position_lots - transfer.base_transfer) as i64,
                quote_position_native: liqee_after.quote_position_native,
                long_settled_funding: market.long_funding,
                short_settled_funding: market.short_funding,
                ..liqee_before
            })
            &&& liqor_after == (PerpPosition {
                base_position_lots: (liqor_before.base_position_lots + transfer.base_transfer) as i64,
                quote_position_native: liqor_after.quote_position_native,
                long_settled_funding: market.long_funding,
                short_settled_funding: market.short_funding,
                ..liqor_before
            })
            &&& liqee_before.spec_settle_funding(market) matches Some(liqee_settled)
                && liqee_after.quote_position_native.bits == liqee_settled.quote_position_native.bits
                - transfer.quote_transfer.bits
            &&& liqor_before.spec_settle_funding(market) matches Some(liqor_settled)
                && liqor_after.quote_position_native.bits == liqor_settled.quote_position_native.bits
                + transfer.quote_transfer.bits
        }),
{
    let market = accounts.perp_market;
    let index = market.perp_market_index;
    let liqee = accounts.liqee.spec_with_being_liquidated(true);
    crate::mango_account::lemma_first_active_slot(liqee.perps, index, 0);
    if accounts.liqor.spec_perp_position_index(index) is Some {
        crate::mango_account::lemma_first_active_slot(accounts.liqor.perps, index, 0);
    } else {
        crate::mango_account::lemma_first_free_slot(accounts.liqor.perps, 0);
    }
}

/// The first step of a liquidation keeps both tables of positions in
/// order: where no two slots of an account held a position in the same
/// market before it, none do in the accounts that it gives back.
pub proof fn lemma_liquidation_keeps_wf(
    accounts: PerpLiqBasePosition,
    max_base_transfer: i64,
    liqee_init_health: I80F48,
    liqee_maint_health: I80F48,
    oracle_price: I80F48,
)
    requires
        accounts.liqee.wf(),
        accounts.liqor.wf(),
    ensures
        match spec_perp_liq_base_position(
            accounts,
            max_base_transfer,
            liqee_init_health,
            liqee_maint_health,
            oracle_price,
        ) {
            Ok(LiqStep::Recovered(after)) => after.liqee.wf() && after.liqor.wf(),
            Ok(LiqStep::Transferred { accounts: after, transfer }) => after.liqee.wf()
                && after.liqor.wf(),
            Err(_) => true,
        },
{
    match spec_perp_liq_base_position(
        accounts,
        max_base_transfer,
        liqee_init_health,
        liqee_maint_health,
        oracle_price,
    ) {
        Ok(LiqStep::Transferred { accounts: after, transfer }) => {
            let market = accounts.perp_market;
            let index = market.perp_market_index;
            let liqee = accounts.liqee.spec_with_being_liquidated(true);
            let liqee_slot = liqee.spec_perp_position_index(index)->0;
            crate::mango_account::lemma_first_active_slot(liqee.perps, index, 0);
            crate::mango_account::lemma_ensure_perp_position_keeps_wf(accounts.liqor, index);
            let (liqor, liqor_slot) = accounts.liqor.spec_ensure_perp_position(index)->Ok_0;
            let liqee_settled = liqee.perps[liqee_slot].spec_settle_funding(market)->0;
            let liqor_settled = liqor.perps[liqor_slot].spec_settle_funding(market)->0;
            let (liqee_after, liqor_after) = spec_apply_transfer(
                liqee_settled,
                liqor_settled,
                transfer,
            )->0;
            crate::mango_account::lemma_with_perp_position_keeps_wf(liqee, liqee_slot, liqee_after);
            crate::mango_account::lemma_with_perp_position_keeps_wf(liqor, liqor_slot, liqor_after);
        },
        _ => {},
    }
}

/// The second step of a liquidation changes no position.
pub proof fn lemma_finish_keeps_positions(
    accounts: PerpLiqBasePosition,
    liqee_init_health: I80F48,
    liqor_init_health: I80F48,
)
    requires
        spec_perp_liq_base_position_finish(accounts, liqee_init_health, liqor_init_health) is Ok,
    ensures
        ({
            let after = spec_perp_liq_base_position_finish(
                accounts,
                liqee_init_health,
                liqor_init_health,
            )->Ok_0;
            &&& after.liqor == accounts.liqor
            &&& after.perp_market == accounts.perp_market
            &&& after.liqor_owner == accounts.liqor_owner
            &&& after.liqee.perps == accounts.liqee.perps
            &&& after.liqee.wf() == accounts.liqee.wf()
            &&& after.liqee.being_liquidated == (accounts.liqee.being_liquidated
                && liqee_init_health.bits < 0)
        }),
{
}

} // verus!
