use anchor_lang::prelude::Pubkey;
use mpl_token_metadata::accounts::Metadata;
use nft_marketplace::address::Address;
use nft_marketplace::derivation::{auction_custody, escrow_custody, find_metadata_account, listing_custody};

fn key(a: Address) -> Pubkey {
    Pubkey::new_from_array(a.bytes)
}

#[test]
fn metadata_account_matches_metadata_program() {
    let mint = Address::new([42; 32]);
    let (account, bump) = find_metadata_account(&mint).unwrap();
    let (expected, expected_bump) = Metadata::find_pda(&key(mint));
    assert_eq!(key(account), expected);
    assert_eq!(bump, expected_bump);
    assert_ne!(account, mint);
    assert_eq!(key(Address::new(mpl_token_metadata::ID.to_bytes())), mpl_token_metadata::ID);
}

#[test]
fn custody_accounts_derive_from_identity() {
    let program = Address::new([9; 32]);
    let mint = Address::new([1; 32]);
    let seller = Address::new([2; 32]);
    let (a, ab) = auction_custody(&program, &mint, &seller).unwrap();
    assert_eq!((key(a), ab), Pubkey::find_program_address(&[b"auction".as_ref(), mint.bytes.as_ref(), seller.bytes.as_ref()], &key(program)));
    let (l, lb) = listing_custody(&program, &mint, &seller).unwrap();
    assert_eq!((key(l), lb), Pubkey::find_program_address(&[b"listing".as_ref(), mint.bytes.as_ref(), seller.bytes.as_ref()], &key(program)));
    assert_ne!(a, l);
    let (e, eb) = escrow_custody(&program, &seller, -5).unwrap();
    assert_eq!((key(e), eb), Pubkey::find_program_address(&[b"escrow".as_ref(), seller.bytes.as_ref(), (-5i64).to_le_bytes().as_ref()], &key(program)));
    let (e2, _) = escrow_custody(&program, &seller, 6).unwrap();
    assert_ne!(e, e2);
}
