use nft_marketplace::address::Address;
use nft_marketplace::custody::{Holder, Movement};
use nft_marketplace::escrow::{create_escrow, EscrowError, EscrowState, EscrowStatus, EscrowType};
use nft_marketplace::marketplace::MarketplaceState;

fn addr(b: u8) -> Address {
    Address::new([b; 32])
}

fn market() -> MarketplaceState {
    MarketplaceState {
        authority: addr(90),
        fee_basis_points: 0,
        treasury: addr(91),
        treasury_bump: 0,
        is_paused: false,
        total_volume: 0,
        total_sales: 0,
        bump: 0,
    }
}

fn fresh(duration: Option<i64>) -> EscrowState {
    create_escrow(addr(1), EscrowType::Swap, duration, 1000, 4).unwrap()
}

#[test]
fn escrow_created_empty() {
    let e = fresh(Some(500));
    assert_eq!(e.created_at, 1000);
    assert_eq!(e.expires_at, Some(1500));
    assert_eq!(e.nft_mint, None);
    assert_eq!(e.sol_amount, 0);
    assert_eq!(e.escrow_type, EscrowType::Swap);
    assert_eq!(fresh(None).expires_at, None);
    assert_eq!(create_escrow(addr(1), EscrowType::Listing, Some(i64::MAX), 1, 0), Err(EscrowError::MathOverflow));
}

#[test]
fn escrow_value_deposits_accumulate_exactly() {
    let mut e = fresh(None);
    let amounts = [5u64, 17, 1, 1_000_000];
    for a in amounts.iter() {
        let mvs = e.deposit_sol(addr(2), *a, 1001).unwrap();
        assert_eq!(mvs, vec![Movement::Value { from: Holder::Account(addr(2)), to: Holder::Custody, amount: *a }]);
    }
    assert_eq!(e.sol_amount, 1_000_023);
    assert_eq!(e.deposit_sol(addr(2), 0, 1001), Err(EscrowError::InvalidAmount));
}

#[test]
fn escrow_value_overflow_fails_without_partial_accumulation() {
    let mut e = fresh(None);
    e.deposit_sol(addr(2), u64::MAX - 10, 1001).unwrap();
    assert_eq!(e.deposit_sol(addr(2), 11, 1001), Err(EscrowError::MathOverflow));
    assert_eq!(e.sol_amount, u64::MAX - 10);
    e.deposit_sol(addr(2), 10, 1001).unwrap();
    assert_eq!(e.sol_amount, u64::MAX);
}

#[test]
fn escrow_item_deposit_once_and_before_expiry() {
    let mut e = fresh(Some(500));
    assert_eq!(e.deposit_nft(addr(2), addr(3), 1500), Err(EscrowError::EscrowExpired));
    assert_eq!(e.deposit_sol(addr(2), 5, 1500), Err(EscrowError::EscrowExpired));
    let mvs = e.deposit_nft(addr(2), addr(3), 1499).unwrap();
    assert_eq!(mvs, vec![Movement::Item { from: Holder::Account(addr(2)), to: Holder::Custody }]);
    assert_eq!(e.nft_mint, Some(addr(3)));
    assert_eq!(e.deposit_nft(addr(2), addr(4), 1499), Err(EscrowError::NftAlreadyDeposited));
}

#[test]
fn escrow_release_by_authority_only_once() {
    let mut e = fresh(None);
    e.deposit_nft(addr(2), addr(3), 1001).unwrap();
    e.deposit_sol(addr(2), 70, 1001).unwrap();
    assert_eq!(e.release_assets(addr(9), addr(5), addr(6)), Err(EscrowError::Unauthorized));
    let mvs = e.release_assets(addr(1), addr(5), addr(6)).unwrap();
    assert_eq!(
        mvs,
        vec![
            Movement::Item { from: Holder::Custody, to: Holder::Account(addr(5)) },
            Movement::Value { from: Holder::Custody, to: Holder::Account(addr(6)), amount: 70 },
        ]
    );
    assert!(e.is_released);
    assert_eq!(e.release_assets(addr(1), addr(5), addr(6)), Err(EscrowError::EscrowAlreadyReleased));
    assert_eq!(e.emergency_withdraw(&market(), addr(90), addr(7), addr(8)), Err(EscrowError::EscrowAlreadyReleased));
    assert_eq!(e.deposit_sol(addr(2), 1, 1001), Err(EscrowError::EscrowAlreadyReleased));
    assert_eq!(e.deposit_nft(addr(2), addr(3), 1001), Err(EscrowError::EscrowAlreadyReleased));
}

#[test]
fn escrow_release_of_empty_escrow_moves_nothing() {
    let mut e = fresh(None);
    assert_eq!(e.release_assets(addr(1), addr(5), addr(6)), Ok(vec![]));
}

#[test]
fn escrow_emergency_withdraw_is_admin_only() {
    let mut e = fresh(None);
    e.deposit_sol(addr(2), 40, 1001).unwrap();
    assert_eq!(e.emergency_withdraw(&market(), addr(1), addr(7), addr(8)), Err(EscrowError::Unauthorized));
    let mvs = e.emergency_withdraw(&market(), addr(90), addr(7), addr(8)).unwrap();
    assert_eq!(mvs, vec![Movement::Value { from: Holder::Custody, to: Holder::Account(addr(8)), amount: 40 }]);
    assert!(e.is_emergency_withdrawn);
    assert_eq!(e.emergency_withdraw(&market(), addr(90), addr(7), addr(8)), Err(EscrowError::EscrowAlreadyEmergencyWithdrawn));
    assert_eq!(e.release_assets(addr(1), addr(5), addr(6)), Err(EscrowError::EscrowEmergencyWithdrawn));
    assert_eq!(e.deposit_sol(addr(2), 1, 1001), Err(EscrowError::EscrowEmergencyWithdrawn));
}

#[test]
fn escrow_status_is_derived() {
    let mut e = fresh(Some(500));
    assert_eq!(e.get_escrow_status(1499), EscrowStatus::Active);
    assert_eq!(e.get_escrow_status(1500), EscrowStatus::Expired);
    assert_eq!(fresh(None).get_escrow_status(i64::MAX), EscrowStatus::Active);
    e.release_assets(addr(1), addr(5), addr(6)).unwrap();
    assert_eq!(e.get_escrow_status(1499), EscrowStatus::Released);
    let mut w = fresh(Some(500));
    w.emergency_withdraw(&market(), addr(90), addr(7), addr(8)).unwrap();
    assert_eq!(w.get_escrow_status(2000), EscrowStatus::EmergencyWithdrawn);
}
