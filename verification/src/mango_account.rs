//! A margin account: who may act for it, whether it is under liquidation,
//! and its table of perpetual positions.
//!
//! An account enters liquidation when its maintenance health is negative
//! and leaves it only when its initial health, the stricter measure, is no
//! longer negative. Between the two thresholds the flag keeps its value, so
//! that a price that moves a little does not switch it back and forth.

use vstd::prelude::*;
use crate::error::MangoError;
use crate::i80f48::I80F48;
use crate::perp_position::{PerpPosition, FREE_MARKET_INDEX};
use crate::pubkey::Pubkey;

verus! {

/// Number of slots in an account's table of positions.
pub const MAX_PERP_POSITIONS: usize = 8;

/// A margin account.
#[derive(Clone, Copy, Debug, PartialEq, Eq)]
pub struct MangoAccount {
    pub owner: Pubkey,
    pub delegate: Pubkey,
    /// Set while the account is under liquidation.
    pub being_liquidated: bool,
    pub perps: [PerpPosition; MAX_PERP_POSITIONS],
}

/// The first slot at or after `from` that holds a position in the market
/// `market_index`.
pub open spec fn first_active_from(
    perps: [PerpPosition; MAX_PERP_POSITIONS],
    market_index: u16,
    from: int,
) -> Option<int>
    decreases MAX_PERP_POSITIONS - from,
{
    if from < 0 || from >= MAX_PERP_POSITIONS {
        None
    } else if perps[from].spec_is_active_for_market(market_index) {
        Some(from)
    } else {
        first_active_from(perps, market_index, from + 1)
    }
}

/// The first free slot at or after `from`.
pub open spec fn first_free_from(perps: [PerpPosition; MAX_PERP_POSITIONS], from: int) -> Option<
    int,
>
    decreases MAX_PERP_POSITIONS - from,
{
    if from < 0 || from >= MAX_PERP_POSITIONS {
        None
    } else if !perps[from].spec_is_active() {
        Some(from)
    } else {
        first_free_from(perps, from + 1)
    }
}

impl MangoAccount {
    /// `key` is the owner or the delegate of the account.
    pub open spec fn spec_is_owner_or_delegate(self, key: Pubkey) -> bool {
        self.owner == key || self.delegate == key
    }

    /// No two slots hold a position in the same market.
    pub open spec fn wf(self) -> bool {
        forall|i: int, j: int|
            0 <= i < j < MAX_PERP_POSITIONS && self.perps[i].spec_is_active()
                ==> self.perps[i].market_index != self.perps[j].market_index
    }

    /// The account with the flag set to `being_liquidated`.
    pub open spec fn spec_with_being_liquidated(self, being_liquidated: bool) -> MangoAccount {
        MangoAccount { being_liquidated, ..self }
    }

    /// The account with `position` in the slot `slot`.
    pub open spec fn spec_with_perp_position(self, slot: int, position: PerpPosition) -> MangoAccount {
        MangoAccount { perps: vstd::array::spec_array_update(self.perps, slot, position), ..self }
    }

    /// The account after a health check found the initial health
    /// `init_health`: an account under liquidation whose initial health is
    /// not negative has recovered.
    pub open spec fn spec_recover(self, init_health: I80F48) -> MangoAccount {
        if self.being_liquidated && init_health.bits >= 0 {
            self.spec_with_being_liquidated(false)
        } else {
            self
        }
    }

    /// The slot of the position in the market `market_index`.
    pub open spec fn spec_perp_position_index(self, market_index: u16) -> Option<int> {
        first_active_from(self.perps, market_index, 0)
    }

    /// The account with a position in the market `market_index`, and the
    /// slot of that position: the account itself where it has one, else
    /// the account with an empty position in its first free slot.
    pub open spec fn spec_ensure_perp_position(self, market_index: u16) -> Result<
        (MangoAccount, int),
        MangoError,
    > {
        match self.spec_perp_position_index(market_index) {
            Some(slot) => Ok((self, slot)),
            None => match first_free_from(self.perps, 0) {
                Some(slot) => Ok(
                    (self.spec_with_perp_position(slot, PerpPosition::spec_new(market_index)), slot),
                ),
                None => Err(MangoError::NoFreePerpPositionIndex),
            },
        }
    }

    /// An account without positions that is not under liquidation.
    pub fn new(owner: Pubkey, delegate: Pubkey) -> (account: MangoAccount)
        ensures
            account.owner == owner,
            account.delegate == delegate,
            !account.being_liquidated,
            forall|i: int|
                0 <= i < MAX_PERP_POSITIONS ==> account.perps[i] == PerpPosition::spec_new(
                    FREE_MARKET_INDEX,
                ),
            account.wf(),
    {
        MangoAccount {
            owner,
            delegate,
            being_liquidated: false,
            perps: [PerpPosition::new(FREE_MARKET_INDEX);MAX_PERP_POSITIONS],
        }
    }

    /// Whether `key` is the owner or the delegate of the account.
    pub fn is_owner_or_delegate(&self, key: Pubkey) -> (r: bool)
        ensures
            r == self.spec_is_owner_or_delegate(key),
    {
        self.owner == key || self.delegate == key
    }

    /// Whether the account is under liquidation.
    pub fn being_liquidated(&self) -> (r: bool)
        ensures
            r == self.being_liquidated,
    {
        self.being_liquidated
    }

    /// Sets the liquidation flag and nothing else.
    pub fn set_being_liquidated(&mut self, being_liquidated: bool)
        ensures
            *final(self) == old(self).spec_with_being_liquidated(being_liquidated),
    {
        self.being_liquidated = being_liquidated;
    }

    /// Ends the liquidation of an account whose initial health is no
    /// longer negative. Returns whether it did.
    pub fn maybe_recover_from_being_liquidated(&mut self, init_health: I80F48) -> (recovered: bool)
        ensures
            recovered == (old(self).being_liquidated && init_health.bits >= 0),
            *final(self) == old(self).spec_recover(init_health),
    {
        if self.being_liquidated && !init_health.is_negative() {
            self.being_liquidated = false;
            true
        } else {
            false
        }
    }

    /// The slot of the position in the market `market_index`, if there is one.
    pub fn perp_position_index(&self, market_index: u16) -> (r: Option<usize>)
        ensures
            match r {
                Some(slot) => self.spec_perp_position_index(market_index) == Some(slot as int)
                    && slot < MAX_PERP_POSITIONS && self.perps[slot as int].spec_is_active_for_market(
                    market_index,
                ),
                None => self.spec_perp_position_index(market_index) is None,
            },
    {
        let mut i: usize = 0;
        while i < MAX_PERP_POSITIONS
            invariant
                i <= MAX_PERP_POSITIONS,
                self.spec_perp_position_index(market_index) == first_active_from(
                    self.perps,
                    market_index,
                    i as int,
                ),
            decreases MAX_PERP_POSITIONS - i,
        {
            if self.perps[i].is_active_for_market(market_index) {
                return Some(i);
            }
            i += 1;
        }
        None
    }

    /// The position in the market `market_index`; `PerpPositionDoesNotExist`
    /// where the account has none.
    pub fn perp_position(&self, market_index: u16) -> (r: Result<PerpPosition, MangoError>)
        ensures
            match r {
                Ok(position) => self.spec_perp_position_index(market_index) matches Some(slot)
                    && position == self.perps[slot],
                Err(e) => e == MangoError::PerpPositionDoesNotExist
                    && self.spec_perp_position_index(market_index) is None,
            },
    {
        match self.perp_position_index(market_index) {
            Some(slot) => Ok(self.perps[slot]),
            None => Err(MangoError::PerpPositionDoesNotExist),
        }
    }

    /// The first free slot, if there is one.
    pub fn first_free_perp_slot(&self) -> (r: Option<usize>)
        ensures
            match r {
                Some(slot) => first_free_from(self.perps, 0) == Some(slot as int) && slot
                    < MAX_PERP_POSITIONS && !self.perps[slot as int].spec_is_active(),
                None => first_free_from(self.perps, 0) is None,
            },
    {
        let mut i: usize = 0;
        while i < MAX_PERP_POSITIONS
            invariant
                i <= MAX_PERP_POSITIONS,
                first_free_from(self.perps, 0) == first_free_from(self.perps, i as int),
            decreases MAX_PERP_POSITIONS - i,
        {
            if !self.perps[i].is_active() {
                return Some(i);
            }
            i += 1;
        }
        None
    }

    /// Puts `position` into the slot `slot`.
    pub fn set_perp_position(&mut self, slot: usize, position: PerpPosition)
        requires
            slot < MAX_PERP_POSITIONS,
        ensures
            *final(self) == old(self).spec_with_perp_position(slot as int, position),
    {
        self.perps[slot] = position;
        assert(self.perps =~= vstd::array::spec_array_update(
            old(self).perps,
            slot as int,
            position,
        ));
    }

    /// The slot of the account's position in the market `market_index`. An
    /// account without one gets an empty position in its first free slot;
    /// `NoFreePerpPositionIndex`, and no change, where no slot is free.
    pub fn ensure_perp_position(&mut self, market_index: u16) -> (r: Result<usize, MangoError>)
        ensures
            match r {
                Ok(slot) => old(self).spec_ensure_perp_position(market_index) == Ok::<
                    (MangoAccount, int),
                    MangoError,
                >((*final(self), slot as int)) && slot < MAX_PERP_POSITIONS,
                Err(e) => old(self).spec_ensure_perp_position(market_index) == Err::<
                    (MangoAccount, int),
                    MangoError,
                >(e) && *final(self) == *old(self),
            },
            old(self).wf() && market_index != FREE_MARKET_INDEX ==> final(self).wf(),
    {
        if let Some(slot) = self.perp_position_index(market_index) {
            return Ok(slot);
        }
        match self.first_free_perp_slot() {
            Some(slot) => {
                proof {
                    lemma_no_active_slot(self.perps, market_index, 0);
                }
                self.set_perp_position(slot, PerpPosition::new(market_index));
                Ok(slot)
            },
            None => Err(MangoError::NoFreePerpPositionIndex),
        }
    }
}

/// A slot may be emptied, or given another position in the market it holds
/// one in, without two slots coming to hold a position in the same market.
pub proof fn lemma_with_perp_position_keeps_wf(
    account: MangoAccount,
    slot: int,
    position: PerpPosition,
)
    requires
        account.wf(),
        0 <= slot < MAX_PERP_POSITIONS,
        !position.spec_is_active() || position.market_index == account.perps[slot].market_index,
    ensures
        account.spec_with_perp_position(slot, position).wf(),
{
    let after = account.spec_with_perp_position(slot, position);
    assert forall|i: int, j: int|
        0 <= i < j < MAX_PERP_POSITIONS && after.perps[i].spec_is_active() implies after.perps[i].market_index
        != after.perps[j].market_index by {
        assert(after.perps[i] == if i == slot {
            position
        } else {
            account.perps[i]
        });
        assert(after.perps[j] == if j == slot {
            position
        } else {
            account.perps[j]
        });
        if i == slot {
            assert(account.perps[i].spec_is_active());
        }
    }
}

/// An account gets its position in a market without two slots coming to
/// hold a position in the same market.
pub proof fn lemma_ensure_perp_position_keeps_wf(account: MangoAccount, market_index: u16)
    requires
        account.wf(),
        market_index != FREE_MARKET_INDEX,
        account.spec_ensure_perp_position(market_index) is Ok,
    ensures
        ({
            let (after, slot) = account.spec_ensure_perp_position(market_index)->Ok_0;
            &&& after.wf()
            &&& 0 <= slot < MAX_PERP_POSITIONS
            &&& after.perps[slot].spec_is_active_for_market(market_index)
        }),
{
    let (after, slot) = account.spec_ensure_perp_position(market_index)->Ok_0;
    if account.spec_perp_position_index(market_index) is Some {
        lemma_first_active_slot(account.perps, market_index, 0);
    } else {
        lemma_no_active_slot(account.perps, market_index, 0);
        lemma_first_free_slot(account.perps, 0);
        let position = PerpPosition::spec_new(market_index);
        assert forall|i: int, j: int|
            0 <= i < j < MAX_PERP_POSITIONS && after.perps[i].spec_is_active() implies after.perps[i].market_index
            != after.perps[j].market_index by {
            assert(after.perps[i] == if i == slot {
                position
            } else {
                account.perps[i]
            });
            assert(after.perps[j] == if j == slot {
                position
            } else {
                account.perps[j]
            });
            if i != slot && j == slot {
                assert(!account.perps[i].spec_is_active_for_market(market_index));
            }
            if i == slot && j != slot {
                if account.perps[j].spec_is_active() {
                    assert(!account.perps[j].spec_is_active_for_market(market_index));
                }
            }
        }
    }
}

/// Where the search from `from` finds a free slot, that slot is free and
/// lies in the table.
pub proof fn lemma_first_free_slot(perps: [PerpPosition; MAX_PERP_POSITIONS], from: int)
    requires
        0 <= from,
        first_free_from(perps, from) is Some,
    ensures
        ({
            let slot = first_free_from(perps, from)->0;
            &&& from <= slot < MAX_PERP_POSITIONS
            &&& !perps[slot].spec_is_active()
        }),
    decreases MAX_PERP_POSITIONS - from,
{
    if from < MAX_PERP_POSITIONS && perps[from].spec_is_active() {
        lemma_first_free_slot(perps, from + 1);
    }
}

/// Where the search from `from` finds nothing, no slot from there on holds
/// a position in the market.
pub proof fn lemma_no_active_slot(
    perps: [PerpPosition; MAX_PERP_POSITIONS],
    market_index: u16,
    from: int,
)
    requires
        0 <= from,
        first_active_from(perps, market_index, from) is None,
    ensures
        forall|i: int|
            from <= i < MAX_PERP_POSITIONS ==> !perps[i].spec_is_active_for_market(market_index),
    decreases MAX_PERP_POSITIONS - from,
{
    if from < MAX_PERP_POSITIONS {
        lemma_no_active_slot(perps, market_index, from + 1);
    }
}

/// Where the search from `from` finds a slot, that slot holds a position
/// in the market and no slot between `from` and it does.
pub proof fn lemma_first_active_slot(
    perps: [PerpPosition; MAX_PERP_POSITIONS],
    market_index: u16,
    from: int,
)
    requires
        0 <= from,
        first_active_from(perps, market_index, from) is Some,
    ensures
        ({
            let slot = first_active_from(perps, market_index, from)->0;
            &&& from <= slot < MAX_PERP_POSITIONS
            &&& perps[slot].spec_is_active_for_market(market_index)
            &&& forall|i: int| from <= i < slot ==> !perps[i].spec_is_active_for_market(market_index)
        }),
    decreases MAX_PERP_POSITIONS - from,
{
    if from < MAX_PERP_POSITIONS && !perps[from].spec_is_active_for_market(market_index) {
        lemma_first_active_slot(perps, market_index, from + 1);
    }
}

} // verus!
