use anchor_lang::prelude::Pubkey;
use anchor_lang::AnchorSerialize;
use mpl_token_metadata::accounts::Metadata;
use mpl_token_metadata::types::{Creator, Key};
use nft_marketplace::address::Address;
use nft_marketplace::custody::{Holder, Movement};
use nft_marketplace::royalty::{
    initialize_royalty_config, read_royalty_metadata, royalty_breakdown, CreatorRoyalty, CreatorShare, ErrorCode,
    RoyaltyConfig, RoyaltyMetadata,
};

fn addr(b: u8) -> Address {
    Address::new([b; 32])
}

fn share(b: u8, verified: bool, share: u8) -> CreatorShare {
    CreatorShare { address: addr(b), verified, share }
}

fn config(platform_bps: u16) -> RoyaltyConfig {
    initialize_royalty_config(addr(90), 5000, platform_bps, 1)
}

#[test]
fn royalty_split_pays_verified_creators_only() {
    let meta = RoyaltyMetadata { seller_fee_basis_points: 500, creators: Some(vec![share(1, true, 60), share(2, false, 40)]) };
    let b = royalty_breakdown(250, 10000, &meta).unwrap();
    assert_eq!(b.sale_price, 10000);
    assert_eq!(b.platform_fee, 250);
    assert_eq!(b.total_royalty_fee, 300);
    assert_eq!(b.seller_amount, 9450);
    assert_eq!(b.creators, vec![CreatorRoyalty { address: addr(1), share: 60, amount: 300 }]);
}

#[test]
fn royalty_split_has_no_rounding_leak() {
    let meta = RoyaltyMetadata {
        seller_fee_basis_points: 777,
        creators: Some(vec![share(1, true, 33), share(2, true, 33), share(3, true, 34)]),
    };
    let b = config(333).calculate_royalties(&meta, 9999).unwrap();
    assert_eq!(b.platform_fee, 332);
    let amounts: Vec<u64> = b.creators.iter().map(|c| c.amount).collect();
    assert_eq!(amounts, vec![256, 256, 263]);
    assert_eq!(b.total_royalty_fee, 775);
    assert_eq!(b.seller_amount, 8892);
    assert_eq!(b.platform_fee + amounts.iter().sum::<u64>() + b.seller_amount, 9999);
}

#[test]
fn royalty_split_without_creators_or_price() {
    let meta = RoyaltyMetadata { seller_fee_basis_points: 900, creators: None };
    let b = royalty_breakdown(100, 1000, &meta).unwrap();
    assert_eq!((b.platform_fee, b.total_royalty_fee, b.seller_amount), (10, 0, 990));
    assert!(b.creators.is_empty());
    let zero = royalty_breakdown(1000, 0, &meta).unwrap();
    assert_eq!((zero.platform_fee, zero.total_royalty_fee, zero.seller_amount), (0, 0, 0));
}

#[test]
fn royalty_split_above_price_is_arithmetic_error() {
    let meta = RoyaltyMetadata { seller_fee_basis_points: 6000, creators: Some(vec![share(1, true, 100)]) };
    assert_eq!(royalty_breakdown(6000, 10000, &meta).map(|_| ()), Err(ErrorCode::ArithmeticError));
    let huge = RoyaltyMetadata { seller_fee_basis_points: 65535, creators: Some(vec![share(1, true, 255), share(2, true, 255)]) };
    assert_eq!(royalty_breakdown(0, u64::MAX, &huge).map(|_| ()), Err(ErrorCode::ArithmeticError));
    assert_eq!(royalty_breakdown(20000, 10, &RoyaltyMetadata { seller_fee_basis_points: 0, creators: None }).map(|_| ()), Err(ErrorCode::ArithmeticError));
}

#[test]
fn royalty_distribution_moves_every_part() {
    let meta = RoyaltyMetadata {
        seller_fee_basis_points: 1000,
        creators: Some(vec![share(1, true, 50), share(2, true, 0), share(3, false, 50)]),
    };
    let mut c = config(200);
    let mvs = c.distribute_payment(&meta, 5000, addr(20), addr(21), addr(22), &vec![addr(1)]).unwrap();
    assert_eq!(
        mvs,
        vec![
            Movement::Value { from: Holder::Account(addr(20)), to: Holder::Account(addr(22)), amount: 100 },
            Movement::Value { from: Holder::Account(addr(20)), to: Holder::Account(addr(1)), amount: 250 },
            Movement::Value { from: Holder::Account(addr(20)), to: Holder::Account(addr(21)), amount: 4650 },
        ]
    );
    assert_eq!(c.total_fees_collected, 100);
    c.distribute_payment(&meta, 5000, addr(20), addr(21), addr(22), &vec![addr(1)]).unwrap();
    assert_eq!(c.total_fees_collected, 200);
}

#[test]
fn royalty_distribution_needs_creator_accounts() {
    let meta = RoyaltyMetadata { seller_fee_basis_points: 1000, creators: Some(vec![share(1, true, 100)]) };
    let mut c = config(200);
    assert_eq!(c.distribute_payment(&meta, 5000, addr(20), addr(21), addr(22), &vec![addr(2)]), Err(ErrorCode::CreatorAccountNotFound));
    assert_eq!(c.total_fees_collected, 0);
    c.total_fees_collected = u64::MAX - 99;
    assert_eq!(c.distribute_payment(&meta, 5000, addr(20), addr(21), addr(22), &vec![addr(1)]), Err(ErrorCode::ArithmeticError));
    assert_eq!(c.total_fees_collected, u64::MAX - 99);
}

#[test]
fn royalty_config_updates_are_checked() {
    let mut c = config(200);
    assert_eq!(c.update_royalty_config(addr(1), Some(100), None), Err(ErrorCode::Unauthorized));
    assert_eq!(c.update_royalty_config(addr(90), Some(10001), None), Err(ErrorCode::InvalidRoyaltyBasisPoints));
    assert_eq!(c.update_royalty_config(addr(90), Some(100), Some(1001)), Err(ErrorCode::InvalidPlatformFee));
    assert_eq!((c.max_royalty_basis_points, c.platform_fee_basis_points), (5000, 200));
    c.update_royalty_config(addr(90), None, Some(1000)).unwrap();
    assert_eq!((c.max_royalty_basis_points, c.platform_fee_basis_points), (5000, 1000));
    c.update_royalty_config(addr(90), Some(10000), None).unwrap();
    assert_eq!((c.max_royalty_basis_points, c.platform_fee_basis_points), (10000, 1000));
}

#[test]
fn royalty_withdraw_is_authority_only() {
    let c = config(200);
    assert_eq!(c.withdraw_platform_fees(addr(1), addr(2), 10), Err(ErrorCode::Unauthorized));
    assert_eq!(
        c.withdraw_platform_fees(addr(90), addr(2), 10),
        Ok(vec![Movement::Value { from: Holder::Custody, to: Holder::Account(addr(2)), amount: 10 }])
    );
}

fn metadata_bytes(creators: Option<Vec<Creator>>, seller_fee_basis_points: u16) -> Vec<u8> {
    let md = Metadata {
        key: Key::MetadataV1,
        update_authority: Pubkey::new_from_array([7; 32]),
        mint: Pubkey::new_from_array([8; 32]),
        name: "Item".to_string(),
        symbol: "ITM".to_string(),
        uri: "https://example.com/item.json".to_string(),
        seller_fee_basis_points,
        creators,
        primary_sale_happened: false,
        is_mutable: true,
        edition_nonce: None,
        token_standard: None,
        collection: None,
        uses: None,
        collection_details: None,
        programmable_config: None,
    };
    md.try_to_vec().unwrap()
}

#[test]
fn royalty_metadata_is_read_from_account_bytes() {
    let creators = vec![
        Creator { address: Pubkey::new_from_array([1; 32]), verified: true, share: 70 },
        Creator { address: Pubkey::new_from_array([2; 32]), verified: false, share: 30 },
    ];
    let meta = read_royalty_metadata(&metadata_bytes(Some(creators), 450)).unwrap();
    assert_eq!(meta.seller_fee_basis_points, 450);
    assert_eq!(meta.creators, Some(vec![share(1, true, 70), share(2, false, 30)]));
    let none = read_royalty_metadata(&metadata_bytes(None, 0)).unwrap();
    assert_eq!(none.creators, None);
    assert_eq!(read_royalty_metadata(&[4u8, 1, 2]), Err(ErrorCode::InvalidMetadataAccount));
    assert_eq!(read_royalty_metadata(&[]), Err(ErrorCode::InvalidMetadataAccount));
}
