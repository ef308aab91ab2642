//! A custodial settlement engine for exchanging a unique item for a fungible
//! balance: fixed-price listings, ascending auctions, a generic escrow and a
//! royalty split. Each operation checks its caller, the time and the record,
//! updates the record and returns the movements of value and of the item
//! that the host must perform, all or nothing.
pub mod address;
pub mod auction;
pub mod custody;
pub mod derivation;
pub mod escrow;
pub mod fees;
pub mod listing;
pub mod marketplace;
pub mod nft_mint;
pub mod royalty;
