use vstd::prelude::*;

use crate::address::Address;
use crate::royalty::CreatorShare;

verus! {

/// Why a minting operation was refused.
#[derive(Clone, Copy, Debug, PartialEq, Eq, Structural)]
pub enum NftMintError {
    InvalidCreatorShare,
    InvalidTotalShare,
    UriTooLong,
    NameTooLong,
    SymbolTooLong,
    Unauthorized,
    InvalidRoyalty,
}

/// The record of who may mint through the minting service.
#[derive(Clone, Copy, Debug, PartialEq, Eq)]
pub struct MintAuthority {
    pub authority: Address,
    pub bump: u8,
}

/// A creator named in new metadata, with its percentage of the royalty.
#[derive(Clone, Copy, Debug, PartialEq, Eq)]
pub struct NftCreator {
    pub address: Address,
    pub share: u8,
}

/// The metadata of an item to mint or to update.
#[derive(Clone, Debug, PartialEq, Eq)]
pub struct CreateNftMetadata {
    pub name: String,
    pub symbol: String,
    pub uri: String,
    pub seller_fee_basis_points: u16,
    pub creators: Vec<NftCreator>,
}

/// The entry of the creator table for `c` when `signer` signs the metadata:
/// only the signer's own entry counts as verified.
pub open spec fn creator_entry(c: NftCreator, signer: Address) -> CreatorShare {
    CreatorShare { address: c.address, verified: c.address == signer, share: c.share }
}

/// Records `authority` as the one who controls minting.
pub fn initialize(authority: Address, bump: u8) -> (r: MintAuthority)
    ensures
        r == (MintAuthority { authority, bump }),
{
    MintAuthority { authority, bump }
}

/// The creator table written into the metadata when `signer` signs it: the
/// creators in order, each with its share, verified exactly when it is the
/// signer.
pub fn metadata_creators(creators: &Vec<NftCreator>, signer: Address) -> (r: Vec<CreatorShare>)
    ensures
        r@ == creators@.map_values(|c: NftCreator| creator_entry(c, signer)),
{
    let mut table: Vec<CreatorShare> = Vec::new();
    let mut i: usize = 0;
    while i < creators.len()
        invariant
            i <= creators@.len(),
            table@ == creators@.subrange(0, i as int).map_values(|c: NftCreator| creator_entry(c, signer)),
        decreases creators@.len() - i,
    {
        let c = creators[i];
        let verified = c.address == signer;
        table.push(CreatorShare { address: c.address, verified, share: c.share });
        i = i + 1;
        proof {
            assert(table@ =~= creators@.subrange(0, i as int).map_values(|c: NftCreator| creator_entry(c, signer)));
        }
    }
    proof {
        assert(creators@.subrange(0, i as int) =~= creators@);
    }
    table
}

} // verus!
