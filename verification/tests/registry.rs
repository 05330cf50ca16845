use mango_v4::error::{ErrorKind, MangoError};
use mango_v4::i80f48::I80F48;
use mango_v4::mango_group::{MangoGroup, TokenInfo, Tokens, MAX_TOKENS};
use mango_v4::pubkey::Pubkey;

const ONE: i128 = 1 << 48;

fn key(tag: u8) -> Pubkey {
    let mut bytes = [0u8; 32];
    bytes[0] = tag;
    bytes[31] = tag;
    Pubkey::new_from_array(bytes)
}

fn empty_info() -> TokenInfo {
    TokenInfo {
        mint: Pubkey::default(),
        decimals: 0,
        bank_bump: 0,
        vault_bump: 0,
        maint_asset_weight: I80F48::zero(),
        init_asset_weight: I80F48::zero(),
        maint_liab_weight: I80F48::zero(),
        init_liab_weight: I80F48::zero(),
        reserved: [0u8; 30],
    }
}

fn info(mint: Pubkey, decimals: u8, init_asset_weight_bits: i128) -> TokenInfo {
    TokenInfo {
        mint,
        decimals,
        bank_bump: 1,
        vault_bump: 2,
        maint_asset_weight: I80F48::from_bits(ONE * 9 / 10),
        init_asset_weight: I80F48::from_bits(init_asset_weight_bits),
        maint_liab_weight: I80F48::from_bits(ONE * 11 / 10),
        init_liab_weight: I80F48::from_bits(ONE * 12 / 10),
        reserved: [0u8; 30],
    }
}

fn table() -> Tokens {
    let mut infos = [empty_info(); MAX_TOKENS];
    infos[0] = info(key(1), 6, ONE * 8 / 10);
    infos[1] = info(key(2), 9, ONE * 7 / 10);
    infos[5] = info(key(3), 8, ONE * 6 / 10);
    infos[59] = info(key(4), 2, ONE * 5 / 10);
    Tokens { infos }
}

#[test]
fn pubkey_default_is_all_zero() {
    assert_eq!(Pubkey::default().to_bytes(), [0u8; 32]);
    assert!(Pubkey::default().is_default());
    assert!(!key(1).is_default());
    let mut last = [0u8; 32];
    last[31] = 1;
    assert!(!Pubkey::new_from_array(last).is_default());
}

#[test]
fn pubkey_equality_is_byte_equality() {
    assert_eq!(key(7), key(7));
    assert_ne!(key(7), key(8));
    let mut a = [9u8; 32];
    let b = a;
    a[31] = 0;
    assert_ne!(Pubkey::new_from_array(a), Pubkey::new_from_array(b));
    assert_eq!(Pubkey::new_from_array(b).to_bytes(), b);
}

#[test]
fn is_valid_tells_empty_slots() {
    assert!(!empty_info().is_valid());
    assert!(info(key(1), 6, ONE).is_valid());
}

#[test]
fn index_for_mint_finds_the_slot() {
    let tokens = table();
    assert_eq!(tokens.index_for_mint(&key(1)), Ok(0));
    assert_eq!(tokens.index_for_mint(&key(2)), Ok(1));
    assert_eq!(tokens.index_for_mint(&key(3)), Ok(5));
    assert_eq!(tokens.index_for_mint(&key(4)), Ok(59));
}

#[test]
fn index_for_mint_reports_an_absent_instrument() {
    let tokens = table();
    let r = tokens.index_for_mint(&key(42));
    assert_eq!(r, Err(MangoError::NoSuchToken));
    assert_eq!(r.unwrap_err().kind(), ErrorKind::NotFound);
}

#[test]
fn index_for_mint_returns_the_first_of_equal_identities() {
    let mut tokens = table();
    tokens.infos[7] = info(key(2), 1, ONE);
    assert_eq!(tokens.index_for_mint(&key(2)), Ok(1));
}

#[test]
fn the_zero_identity_is_no_instrument() {
    // slots 2, 3, 4 and more of the table are empty and hold the zero identity
    let tokens = table();
    assert!(!tokens.infos[2].is_valid());
    let r = tokens.index_for_mint(&Pubkey::default());
    assert_eq!(r, Err(MangoError::NoSuchToken));
    assert_eq!(r.unwrap_err().kind(), ErrorKind::NotFound);
    assert_eq!(tokens.info_for_mint(&Pubkey::default()), Err(MangoError::NoSuchToken));
    assert_eq!(
        tokens.index_for_mint(&Pubkey::new_from_array([0u8; 32])),
        Err(MangoError::NoSuchToken)
    );
}

#[test]
fn an_empty_table_holds_nothing() {
    let tokens = Tokens { infos: [empty_info(); MAX_TOKENS] };
    assert_eq!(tokens.index_for_mint(&Pubkey::default()), Err(MangoError::NoSuchToken));
    assert_eq!(tokens.info_for_mint(&Pubkey::default()), Err(MangoError::NoSuchToken));
    assert_eq!(tokens.index_for_mint(&key(1)), Err(MangoError::NoSuchToken));
}

#[test]
fn what_a_lookup_hands_out_is_an_instrument() {
    let tokens = table();
    for tag in 0..=5u8 {
        let mint = if tag == 0 { Pubkey::default() } else { key(tag) };
        match tokens.index_for_mint(&mint) {
            Ok(slot) => {
                assert!(tokens.infos[slot].is_valid());
                assert_eq!(tokens.infos[slot].mint, mint);
                assert!(tokens.info_for_mint(&mint).unwrap().is_valid());
            }
            Err(e) => {
                assert_eq!(e, MangoError::NoSuchToken);
                assert!(tag == 0 || tag == 5);
            }
        }
    }
}

#[test]
fn info_for_mint_hands_out_the_record() {
    let tokens = table();
    let found = tokens.info_for_mint(&key(3)).unwrap();
    assert_eq!(found.decimals, 8);
    assert_eq!(found.init_asset_weight, I80F48::from_bits(ONE * 6 / 10));
    assert_eq!(found.init_liab_weight, I80F48::from_bits(ONE * 12 / 10));
    assert_eq!(*found, tokens.infos[5]);
    assert_eq!(tokens.info_for_mint(&key(42)), Err(MangoError::NoSuchToken));
}

#[test]
fn full_table_is_searched_to_its_end() {
    let mut infos = [empty_info(); MAX_TOKENS];
    for i in 0..MAX_TOKENS {
        infos[i] = info(key(100 + i as u8), 0, ONE);
    }
    let tokens = Tokens { infos };
    assert_eq!(tokens.index_for_mint(&key(100 + 59)), Ok(59));
    assert_eq!(tokens.index_for_mint(&Pubkey::default()), Err(MangoError::NoSuchToken));
}

#[test]
fn group_holds_its_table() {
    let group = MangoGroup { admin: key(9), tokens: table(), bump: 254 };
    assert_eq!(group.tokens.index_for_mint(&key(4)), Ok(59));
    assert_eq!(group.admin, key(9));
    assert_eq!(group.bump, 254);
}
