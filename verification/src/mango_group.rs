//! The group's table of instruments and their risk weights.

use vstd::prelude::*;
use crate::error::MangoError;
use crate::i80f48::I80F48;
use crate::pubkey::Pubkey;

verus! {

/// Number of slots in the table.
pub const MAX_TOKENS: usize = 60;

/// Index of an instrument.
pub type TokenIndex = u16;

/// One instrument: its identity, its precision and its four risk weights.
#[derive(Clone, Copy, Debug, PartialEq, Eq)]
pub struct TokenInfo {
    pub mint: Pubkey,
    pub decimals: u8,
    pub bank_bump: u8,
    pub vault_bump: u8,
    pub maint_asset_weight: I80F48,
    pub init_asset_weight: I80F48,
    pub maint_liab_weight: I80F48,
    pub init_liab_weight: I80F48,
    pub reserved: [u8; 30],
}

impl TokenInfo {
    /// The slot holds an instrument.
    pub open spec fn spec_is_valid(self) -> bool {
        !self.mint.spec_is_default()
    }

    /// Whether the slot holds an instrument: an identity of zeros marks an empty slot.
    pub fn is_valid(&self) -> (r: bool)
        ensures
            r == self.spec_is_valid(),
    {
        !self.mint.is_default()
    }
}

/// The table of instruments, a fixed number of slots.
#[derive(Clone, Copy, Debug, PartialEq, Eq)]
pub struct Tokens {
    pub infos: [TokenInfo; MAX_TOKENS],
}

impl Tokens {
    /// No slot before `end` holds the identity `mint`.
    pub open spec fn absent_before(self, mint: Pubkey, end: int) -> bool {
        forall|j: int| 0 <= j < end ==> self.infos[j].mint != mint
    }

    /// `i` is the first slot that holds the identity `mint`.
    pub open spec fn is_first_slot_of(self, mint: Pubkey, i: int) -> bool {
        &&& 0 <= i < MAX_TOKENS
        &&& self.infos[i].mint == mint
        &&& self.absent_before(mint, i)
    }

    /// No two slots that hold an instrument hold the same identity.
    pub open spec fn unique_mints(self) -> bool {
        forall|i: int, j: int|
            0 <= i < j < MAX_TOKENS && self.infos[i].spec_is_valid()
                ==> self.infos[i].mint != self.infos[j].mint
    }

    /// The first slot that holds the instrument with the identity `mint`.
    /// `NoSuchToken` where no slot has that identity, and for the identity
    /// of zeros, which marks the empty slots and is no instrument's.
    pub fn index_for_mint(&self, mint: &Pubkey) -> (r: Result<usize, MangoError>)
        ensures
            mint.spec_is_default() ==> r == Err::<usize, MangoError>(MangoError::NoSuchToken),
            match r {
                Ok(i) => self.is_first_slot_of(*mint, i as int)
                    && self.infos[i as int].spec_is_valid(),
                Err(e) => e == MangoError::NoSuchToken && (mint.spec_is_default()
                    || self.absent_before(*mint, MAX_TOKENS as int)),
            },
    {
        if mint.is_default() {
            return Err(MangoError::NoSuchToken);
        }
        let mut i: usize = 0;
        while i < MAX_TOKENS
            invariant
                i <= MAX_TOKENS,
                !mint.spec_is_default(),
                self.absent_before(*mint, i as int),
            decreases MAX_TOKENS - i,
        {
            if self.infos[i].mint == *mint {
                return Ok(i);
            }
            i += 1;
        }
        Err(MangoError::NoSuchToken)
    }

    /// The instrument with the identity `mint`, from the first slot that
    /// holds it. `NoSuchToken` where no slot has that identity, and for the
    /// identity of zeros: an empty slot is never handed out.
    pub fn info_for_mint<'a>(&'a self, mint: &Pubkey) -> (r: Result<&'a TokenInfo, MangoError>)
        ensures
            mint.spec_is_default() ==> r == Err::<&TokenInfo, MangoError>(
                MangoError::NoSuchToken,
            ),
            match r {
                Ok(info) => info.spec_is_valid() && exists|i: int|
                    self.is_first_slot_of(*mint, i) && *info == self.infos[i],
                Err(e) => e == MangoError::NoSuchToken && (mint.spec_is_default()
                    || self.absent_before(*mint, MAX_TOKENS as int)),
            },
    {
        match self.index_for_mint(mint) {
            Ok(i) => Ok(&self.infos[i]),
            Err(e) => Err(e),
        }
    }
}

/// The group: its administrator and its table of instruments.
#[derive(Clone, Copy, Debug, PartialEq, Eq)]
pub struct MangoGroup {
    pub admin: Pubkey,
    pub tokens: Tokens,
    pub bump: u8,
}

/// In a table without repeated identities, an instrument is found in the one
/// slot that holds it.
pub proof fn lemma_lookup_finds_the_slot(tokens: Tokens, i: int)
    requires
        tokens.unique_mints(),
        0 <= i < MAX_TOKENS,
        tokens.infos[i].spec_is_valid(),
    ensures
        tokens.is_first_slot_of(tokens.infos[i].mint, i),
{
    let mint = tokens.infos[i].mint;
    assert forall|j: int| 0 <= j < i implies tokens.infos[j].mint != mint by {
        if tokens.infos[j].mint == mint {
            assert(tokens.infos[j].spec_is_valid());
        }
    }
}

} // verus!
