use vstd::prelude::*;

use crate::address::{Address, contains_address};
use crate::custody::{Holder, Movement, value};
use crate::fees::{bps_of, bps_share};

verus! {

/// Why a royalty operation was refused.
#[derive(Clone, Copy, Debug, PartialEq, Eq, Structural)]
pub enum ErrorCode {
    ArithmeticError,
    InvalidRoyaltyBasisPoints,
    InvalidPlatformFee,
    CreatorAccountNotFound,
    InvalidMetadataAccount,
    InsufficientFunds,
    Unauthorized,
}

/// The highest royalty rate a configuration may allow, in basis points (100%).
pub const MAX_ROYALTY_BASIS_POINTS: u16 = 10000;

/// The highest platform fee a configuration may be updated to, in basis points (10%).
pub const MAX_PLATFORM_FEE_BASIS_POINTS: u16 = 1000;

/// Royalty settings and the running total of platform fees collected.
#[derive(Clone, Copy, Debug, PartialEq, Eq)]
pub struct RoyaltyConfig {
    pub authority: Address,
    pub max_royalty_basis_points: u16,
    pub platform_fee_basis_points: u16,
    pub total_fees_collected: u64,
    pub bump: u8,
}

/// One entry of an asset's creator table: who, whether the claim is
/// attested, and the percentage of the royalty it is owed.
#[derive(Clone, Copy, Debug, PartialEq, Eq)]
pub struct CreatorShare {
    pub address: Address,
    pub verified: bool,
    pub share: u8,
}

/// What the royalty split reads of an asset's metadata.
#[derive(Clone, Debug, PartialEq, Eq)]
pub struct RoyaltyMetadata {
    pub seller_fee_basis_points: u16,
    pub creators: Option<Vec<CreatorShare>>,
}

/// The mathematical value of a `RoyaltyMetadata`.
pub struct RoyaltyMetadataView {
    pub seller_fee_basis_points: u16,
    pub creators: Option<Seq<CreatorShare>>,
}

impl View for RoyaltyMetadata {
    type V = RoyaltyMetadataView;

    open spec fn view(&self) -> RoyaltyMetadataView {
        RoyaltyMetadataView {
            seller_fee_basis_points: self.seller_fee_basis_points,
            creators: match self.creators {
                Some(c) => Some(c@),
                None => None,
            },
        }
    }
}

/// The royalty paid to one verified creator.
#[derive(Clone, Copy, Debug, PartialEq, Eq)]
pub struct CreatorRoyalty {
    pub address: Address,
    pub share: u8,
    pub amount: u64,
}

/// How a sale price splits into platform fee, creator royalties and the
/// seller's remainder.
#[derive(Clone, Debug, PartialEq, Eq)]
pub struct RoyaltyBreakdown {
    pub sale_price: u64,
    pub platform_fee: u64,
    pub total_royalty_fee: u64,
    pub seller_amount: u64,
    pub creators: Vec<CreatorRoyalty>,
}

/// The mathematical value of a `RoyaltyBreakdown`.
pub struct RoyaltyBreakdownView {
    pub sale_price: u64,
    pub platform_fee: u64,
    pub total_royalty_fee: u64,
    pub seller_amount: u64,
    pub creators: Seq<CreatorRoyalty>,
}

impl View for RoyaltyBreakdown {
    type V = RoyaltyBreakdownView;

    open spec fn view(&self) -> RoyaltyBreakdownView {
        RoyaltyBreakdownView {
            sale_price: self.sale_price,
            platform_fee: self.platform_fee,
            total_royalty_fee: self.total_royalty_fee,
            seller_amount: self.seller_amount,
            creators: self.creators@,
        }
    }
}

/// The creator table of the metadata; none means no royalties.
pub open spec fn creator_table(meta: RoyaltyMetadataView) -> Seq<CreatorShare> {
    match meta.creators {
        Some(c) => c,
        None => Seq::empty(),
    }
}

/// `floor(total_royalty * share / 100)`, one creator's part of the royalty.
pub open spec fn creator_fee(total_royalty: int, share: u8) -> int {
    total_royalty * share / 100
}

/// The sum of the fees owed to the verified creators of `creators`.
pub open spec fn royalty_sum(creators: Seq<CreatorShare>, total_royalty: int) -> int
    decreases creators.len(),
{
    if creators.len() == 0 {
        0
    } else {
        royalty_sum(creators.drop_last(), total_royalty) + if creators.last().verified {
            creator_fee(total_royalty, creators.last().share)
        } else {
            0
        }
    }
}

/// The royalty entries of the verified creators, in table order; the
/// unverified receive nothing. Each amount is its creator fee, which fits in
/// 64 bits whenever the split succeeds.
pub open spec fn verified_royalties(creators: Seq<CreatorShare>, total_royalty: int) -> Seq<CreatorRoyalty>
    decreases creators.len(),
{
    if creators.len() == 0 {
        Seq::empty()
    } else {
        let prev = verified_royalties(creators.drop_last(), total_royalty);
        let c = creators.last();
        if c.verified {
            prev.push(CreatorRoyalty { address: c.address, share: c.share, amount: creator_fee(total_royalty, c.share) as u64 })
        } else {
            prev
        }
    }
}

/// The split of `sale_price`: the platform fee at `platform_fee_bps`, the
/// royalty at the asset's own rate shared among its verified creators, and
/// the rest to the seller; an arithmetic error where fee and royalties
/// together exceed the price.
pub open spec fn royalty_outcome(platform_fee_bps: u16, sale_price: u64, meta: RoyaltyMetadataView) -> Result<RoyaltyBreakdownView, ErrorCode> {
    let platform_fee = bps_of(sale_price as int, platform_fee_bps as int);
    let total_royalty = bps_of(sale_price as int, meta.seller_fee_basis_points as int);
    let creators = creator_table(meta);
    let royalties = royalty_sum(creators, total_royalty);
    if platform_fee + royalties > sale_price {
        Err(ErrorCode::ArithmeticError)
    } else {
        Ok(RoyaltyBreakdownView {
            sale_price,
            platform_fee: platform_fee as u64,
            total_royalty_fee: royalties as u64,
            seller_amount: (sale_price - platform_fee - royalties) as u64,
            creators: verified_royalties(creators, total_royalty),
        })
    }
}

/// The view of a result of the split.
pub open spec fn outcome_view(r: Result<RoyaltyBreakdown, ErrorCode>) -> Result<RoyaltyBreakdownView, ErrorCode> {
    match r {
        Ok(b) => Ok(b@),
        Err(e) => Err(e),
    }
}

/// The royalty sum is never negative.
pub proof fn lemma_royalty_sum_nonneg(creators: Seq<CreatorShare>, total_royalty: int)
    requires
        total_royalty >= 0,
    ensures
        royalty_sum(creators, total_royalty) >= 0,
    decreases creators.len(),
{
    if creators.len() > 0 {
        lemma_royalty_sum_nonneg(creators.drop_last(), total_royalty);
        let c = creators.last();
        assert(total_royalty * c.share >= 0) by (nonlinear_arith)
            requires total_royalty >= 0, c.share >= 0;
    }
}

/// Each creator fee is non-negative, so the sum over a prefix of the table
/// never exceeds the sum over a longer prefix.
pub proof fn lemma_royalty_sum_prefix(creators: Seq<CreatorShare>, total_royalty: int, i: int, j: int)
    requires
        total_royalty >= 0,
        0 <= i <= j <= creators.len(),
    ensures
        royalty_sum(creators.subrange(0, i), total_royalty) <= royalty_sum(creators.subrange(0, j), total_royalty),
    decreases j - i,
{
    if i < j {
        lemma_royalty_sum_prefix(creators, total_royalty, i, j - 1);
        let s = creators.subrange(0, j);
        assert(s.drop_last() =~= creators.subrange(0, j - 1));
        let c = s.last();
        assert(total_royalty * c.share >= 0) by (nonlinear_arith)
            requires total_royalty >= 0, c.share >= 0;
    }
}

/// Splits `sale_price` by the royalty rules, with the platform fee at
/// `platform_fee_bps`, over the creator table of `metadata`.
pub fn royalty_breakdown(platform_fee_bps: u16, sale_price: u64, metadata: &RoyaltyMetadata) -> (r: Result<RoyaltyBreakdown, ErrorCode>)
    ensures
        outcome_view(r) == royalty_outcome(platform_fee_bps, sale_price, metadata@),
{
    let platform_fee: u128 = bps_share(sale_price, platform_fee_bps);
    let total_royalty: u128 = bps_share(sale_price, metadata.seller_fee_basis_points);
    proof {
        assert(sale_price as int * metadata.seller_fee_basis_points as int <= u64::MAX as int * 65535)
            by (nonlinear_arith)
            requires sale_price <= u64::MAX, metadata.seller_fee_basis_points <= 65535;
    }
    let ghost creators_spec = creator_table(metadata@);
    let ghost tr = total_royalty as int;
    let empty: Vec<CreatorShare> = Vec::new();
    let creators: &Vec<CreatorShare> = match &metadata.creators {
        Some(c) => c,
        None => &empty,
    };
    assert(creators@ == creators_spec);
    let mut royalties: u128 = 0;
    let mut entries: Vec<CreatorRoyalty> = Vec::new();
    let mut i: usize = 0;
    while i < creators.len()
        invariant
            creators@ == creators_spec,
            creators_spec == creator_table(metadata@),
            tr == total_royalty,
            tr == bps_of(sale_price as int, metadata.seller_fee_basis_points as int),
            platform_fee == bps_of(sale_price as int, platform_fee_bps as int),
            total_royalty <= u64::MAX as int * 65535 / 10000,
            i <= creators.len(),
            royalties <= sale_price,
            royalties == royalty_sum(creators_spec.subrange(0, i as int), tr),
            entries@ == verified_royalties(creators_spec.subrange(0, i as int), tr),
        decreases creators.len() - i,
    {
        let c = creators[i];
        proof {
            let s = creators_spec.subrange(0, i as int + 1);
            assert(s.drop_last() =~= creators_spec.subrange(0, i as int));
            assert(s.last() == c);
        }
        if c.verified {
            proof {
                assert(total_royalty as int * c.share as int <= (u64::MAX as int * 65535 / 10000) * 255)
                    by (nonlinear_arith)
                    requires
                        total_royalty <= u64::MAX as int * 65535 / 10000,
                        c.share <= 255,
                ;
            }
            let fee: u128 = total_royalty * (c.share as u128) / 100;
            if royalties + fee > sale_price as u128 {
                proof {
                    assert(royalty_sum(creators_spec.subrange(0, i as int + 1), tr) == royalties + fee);
                    lemma_royalty_sum_prefix(creators_spec, tr, i as int + 1, creators_spec.len() as int);
                    assert(creators_spec.subrange(0, creators_spec.len() as int) =~= creators_spec);
                    assert(royalty_sum(creators_spec, tr) > sale_price);
                }
                return Err(ErrorCode::ArithmeticError);
            }
            royalties = royalties + fee;
            entries.push(CreatorRoyalty { address: c.address, share: c.share, amount: fee as u64 });
        }
        i = i + 1;
    }
    proof {
        assert(creators_spec.subrange(0, i as int) =~= creators_spec);
    }
    if platform_fee + royalties > sale_price as u128 {
        return Err(ErrorCode::ArithmeticError);
    }
    let seller_amount: u64 = (sale_price as u128 - platform_fee - royalties) as u64;
    Ok(RoyaltyBreakdown {
        sale_price,
        platform_fee: platform_fee as u64,
        total_royalty_fee: royalties as u64,
        seller_amount,
        creators: entries,
    })
}

/// What an asset's metadata account yields when decoded: its royalty rate
/// and creator table, or nothing where the bytes are not a metadata account.
pub uninterp spec fn decoded_royalty_metadata(data: Seq<u8>) -> Option<RoyaltyMetadataView>;

/// The view of a decoded metadata, if any.
pub open spec fn metadata_view(m: Option<RoyaltyMetadata>) -> Option<RoyaltyMetadataView> {
    match m {
        Some(v) => Some(v@),
        None => None,
    }
}

/// Relies on `mpl_token_metadata::accounts::Metadata::from_bytes`, the Borsh
/// decoding of a metadata account, for the royalty rate and the creator
/// table: what it yields depends on the bytes alone.
#[verifier::external_body]
fn decode_metadata(data: &[u8]) -> (r: Option<RoyaltyMetadata>)
    ensures
        metadata_view(r) == decoded_royalty_metadata(data@),
{
    match mpl_token_metadata::accounts::Metadata::from_bytes(data) {
        Ok(m) => Some(RoyaltyMetadata {
            seller_fee_basis_points: m.seller_fee_basis_points,
            creators: m.creators.map(|cs| cs.iter().map(|c| CreatorShare {
                address: Address { bytes: c.address.to_bytes() },
                verified: c.verified,
                share: c.share,
            }).collect()),
        }),
        Err(_) => None,
    }
}

/// Reads the royalty rate and creator table out of the bytes of an asset's
/// metadata account; bytes that do not decode are an invalid metadata account.
pub fn read_royalty_metadata(data: &[u8]) -> (r: Result<RoyaltyMetadata, ErrorCode>)
    ensures
        match decoded_royalty_metadata(data@) {
            Some(m) => r is Ok && r->Ok_0@ == m,
            None => r == Err::<RoyaltyMetadata, ErrorCode>(ErrorCode::InvalidMetadataAccount),
        },
{
    match decode_metadata(data) {
        Some(m) => Ok(m),
        None => Err(ErrorCode::InvalidMetadataAccount),
    }
}

/// The payments of the creator royalties by `payer`, in table order,
/// leaving out the zero ones.
pub open spec fn creator_payments(entries: Seq<CreatorRoyalty>, payer: Address) -> Seq<Movement>
    decreases entries.len(),
{
    if entries.len() == 0 {
        Seq::empty()
    } else {
        let prev = creator_payments(entries.drop_last(), payer);
        let e = entries.last();
        if e.amount > 0 {
            prev.push(value(Holder::Account(payer), Holder::Account(e.address), e.amount))
        } else {
            prev
        }
    }
}

/// Whether every creator owed a non-zero royalty has an account among `accounts`.
pub open spec fn creators_resolvable(entries: Seq<CreatorRoyalty>, accounts: Seq<Address>) -> bool {
    forall|i: int| 0 <= i < entries.len() && #[trigger] entries[i].amount > 0 ==> accounts.contains(entries[i].address)
}

/// The payments of a split, all by `buyer`: the platform fee to `treasury`,
/// the royalties to their creators, the rest to `seller`; zero amounts are
/// left out.
pub open spec fn payment_movements(b: RoyaltyBreakdownView, buyer: Address, seller: Address, treasury: Address) -> Seq<Movement> {
    let fee_part = if b.platform_fee > 0 {
        seq![value(Holder::Account(buyer), Holder::Account(treasury), b.platform_fee)]
    } else {
        Seq::empty()
    };
    let seller_part = if b.seller_amount > 0 {
        seq![value(Holder::Account(buyer), Holder::Account(seller), b.seller_amount)]
    } else {
        Seq::empty()
    };
    fee_part + creator_payments(b.creators, buyer) + seller_part
}

/// The error that `update_royalty_config` gives, if any, checked in this order.
pub open spec fn update_config_error(c: RoyaltyConfig, caller: Address, max_royalty: Option<u16>, platform_fee: Option<u16>) -> Option<ErrorCode> {
    if caller != c.authority {
        Some(ErrorCode::Unauthorized)
    } else if max_royalty is Some && max_royalty->Some_0 > MAX_ROYALTY_BASIS_POINTS {
        Some(ErrorCode::InvalidRoyaltyBasisPoints)
    } else if platform_fee is Some && platform_fee->Some_0 > MAX_PLATFORM_FEE_BASIS_POINTS {
        Some(ErrorCode::InvalidPlatformFee)
    } else {
        None
    }
}

/// Creates the royalty configuration with no fees collected yet.
pub fn initialize_royalty_config(
    authority: Address,
    max_royalty_basis_points: u16,
    platform_fee_basis_points: u16,
    bump: u8,
) -> (r: RoyaltyConfig)
    ensures
        r == (RoyaltyConfig {
            authority,
            max_royalty_basis_points,
            platform_fee_basis_points,
            total_fees_collected: 0,
            bump,
        }),
{
    RoyaltyConfig { authority, max_royalty_basis_points, platform_fee_basis_points, total_fees_collected: 0, bump }
}

impl RoyaltyConfig {
    /// The split of `sale_price` at this configuration's platform fee rate.
    pub fn calculate_royalties(&self, metadata: &RoyaltyMetadata, sale_price: u64) -> (r: Result<RoyaltyBreakdown, ErrorCode>)
        ensures
            outcome_view(r) == royalty_outcome(self.platform_fee_basis_points, sale_price, metadata@),
    {
        royalty_breakdown(self.platform_fee_basis_points, sale_price, metadata)
    }

    /// Pays a sale of `sale_price` out of the buyer's funds: the platform fee
    /// to `treasury`, each verified creator its royalty at its account among
    /// `creator_accounts`, the rest to `seller`; then adds the platform fee to
    /// the fees collected. Nothing is paid where any step fails.
    pub fn distribute_payment(
        &mut self,
        metadata: &RoyaltyMetadata,
        sale_price: u64,
        buyer: Address,
        seller: Address,
        treasury: Address,
        creator_accounts: &Vec<Address>,
    ) -> (r: Result<Vec<Movement>, ErrorCode>)
        ensures
            match royalty_outcome(old(self).platform_fee_basis_points, sale_price, metadata@) {
                Err(e) => r == Err::<Vec<Movement>, ErrorCode>(e) && *final(self) == *old(self),
                Ok(b) => if !creators_resolvable(b.creators, creator_accounts@) {
                    r == Err::<Vec<Movement>, ErrorCode>(ErrorCode::CreatorAccountNotFound) && *final(self) == *old(self)
                } else if old(self).total_fees_collected + b.platform_fee > u64::MAX {
                    r == Err::<Vec<Movement>, ErrorCode>(ErrorCode::ArithmeticError) && *final(self) == *old(self)
                } else {
                    &&& r is Ok
                    &&& r->Ok_0@ == payment_movements(b, buyer, seller, treasury)
                    &&& *final(self) == (RoyaltyConfig {
                        total_fees_collected: (old(self).total_fees_collected + b.platform_fee) as u64,
                        ..*old(self)
                    })
                },
            },
    {
        let breakdown = match royalty_breakdown(self.platform_fee_basis_points, sale_price, metadata) {
            Ok(b) => b,
            Err(e) => return Err(e),
        };
        let ghost b = breakdown@;
        let mut movements: Vec<Movement> = Vec::new();
        if breakdown.platform_fee > 0 {
            movements.push(Movement::Value {
                from: Holder::Account(buyer),
                to: Holder::Account(treasury),
                amount: breakdown.platform_fee,
            });
        }
        let ghost fee_part = movements@;
        let mut i: usize = 0;
        while i < breakdown.creators.len()
            invariant
                b == breakdown@,
                royalty_outcome(old(self).platform_fee_basis_points, sale_price, metadata@) == Ok::<RoyaltyBreakdownView, ErrorCode>(b),
                *self == *old(self),
                i <= b.creators.len(),
                movements@ == fee_part + creator_payments(b.creators.subrange(0, i as int), buyer),
                forall|j: int| 0 <= j < i && #[trigger] b.creators[j].amount > 0 ==> creator_accounts@.contains(b.creators[j].address),
            decreases b.creators.len() - i,
        {
            let entry = breakdown.creators[i];
            proof {
                let s = b.creators.subrange(0, i as int + 1);
                assert(s.drop_last() =~= b.creators.subrange(0, i as int));
                assert(s.last() == entry);
            }
            if entry.amount > 0 {
                if !contains_address(creator_accounts, entry.address) {
                    proof {
                        assert(b.creators[i as int] == entry);
                        assert(!creators_resolvable(b.creators, creator_accounts@));
                    }
                    return Err(ErrorCode::CreatorAccountNotFound);
                }
                movements.push(Movement::Value {
                    from: Holder::Account(buyer),
                    to: Holder::Account(entry.address),
                    amount: entry.amount,
                });
                proof {
                    assert(movements@ =~= fee_part + creator_payments(b.creators.subrange(0, i as int + 1), buyer));
                }
            }
            i = i + 1;
        }
        proof {
            assert(b.creators.subrange(0, i as int) =~= b.creators);
        }
        let total_fees = match self.total_fees_collected.checked_add(breakdown.platform_fee) {
            Some(t) => t,
            None => return Err(ErrorCode::ArithmeticError),
        };
        if breakdown.seller_amount > 0 {
            movements.push(Movement::Value {
                from: Holder::Account(buyer),
                to: Holder::Account(seller),
                amount: breakdown.seller_amount,
            });
        }
        proof {
            assert(movements@ =~= payment_movements(b, buyer, seller, treasury));
        }
        self.total_fees_collected = total_fees;
        Ok(movements)
    }

    /// Changes the royalty ceiling and the platform fee rate, each where
    /// given; only the authority may, the ceiling at most 100% and the fee
    /// at most 10%. Nothing changes where any check fails.
    pub fn update_royalty_config(
        &mut self,
        caller: Address,
        max_royalty_basis_points: Option<u16>,
        platform_fee_basis_points: Option<u16>,
    ) -> (r: Result<(), ErrorCode>)
        ensures
            match update_config_error(*old(self), caller, max_royalty_basis_points, platform_fee_basis_points) {
                Some(e) => r == Err::<(), ErrorCode>(e) && *final(self) == *old(self),
                None => r is Ok && *final(self) == (RoyaltyConfig {
                    max_royalty_basis_points: match max_royalty_basis_points {
                        Some(m) => m,
                        None => old(self).max_royalty_basis_points,
                    },
                    platform_fee_basis_points: match platform_fee_basis_points {
                        Some(f) => f,
                        None => old(self).platform_fee_basis_points,
                    },
                    ..*old(self)
                }),
            },
    {
        if caller != self.authority {
            return Err(ErrorCode::Unauthorized);
        }
        match max_royalty_basis_points {
            Some(m) => {
                if m > MAX_ROYALTY_BASIS_POINTS {
                    return Err(ErrorCode::InvalidRoyaltyBasisPoints);
                }
            },
            None => {},
        }
        match platform_fee_basis_points {
            Some(f) => {
                if f > MAX_PLATFORM_FEE_BASIS_POINTS {
                    return Err(ErrorCode::InvalidPlatformFee);
                }
            },
            None => {},
        }
        match max_royalty_basis_points {
            Some(m) => self.max_royalty_basis_points = m,
            None => {},
        }
        match platform_fee_basis_points {
            Some(f) => self.platform_fee_basis_points = f,
            None => {},
        }
        Ok(())
    }

    /// Pays `amount` of collected platform fees out of the platform treasury
    /// to `destination`; only the authority may.
    pub fn withdraw_platform_fees(&self, caller: Address, destination: Address, amount: u64) -> (r: Result<Vec<Movement>, ErrorCode>)
        ensures
            caller != self.authority ==> r == Err::<Vec<Movement>, ErrorCode>(ErrorCode::Unauthorized),
            caller == self.authority ==> r is Ok
                && r->Ok_0@ == seq![value(Holder::Custody, Holder::Account(destination), amount)],
    {
        if caller != self.authority {
            return Err(ErrorCode::Unauthorized);
        }
        Ok(vec![Movement::Value { from: Holder::Custody, to: Holder::Account(destination), amount }])
    }
}

/// The sum of the shares of the verified creators of `creators`.
pub open spec fn verified_share_total(creators: Seq<CreatorShare>) -> int
    decreases creators.len(),
{
    if creators.len() == 0 {
        0
    } else {
        verified_share_total(creators.drop_last()) + if creators.last().verified {
            creators.last().share as int
        } else {
            0
        }
    }
}

/// The sum of the amounts of royalty entries.
pub open spec fn royalty_amount_total(entries: Seq<CreatorRoyalty>) -> int
    decreases entries.len(),
{
    if entries.len() == 0 {
        0
    } else {
        royalty_amount_total(entries.drop_last()) + entries.last().amount
    }
}

proof fn lemma_floor_add(x: int, y: int, d: int)
    requires
        x >= 0,
        y >= 0,
        d > 0,
    ensures
        x / d + y / d <= (x + y) / d,
{
    vstd::arithmetic::div_mod::lemma_fundamental_div_mod(x, d);
    vstd::arithmetic::div_mod::lemma_fundamental_div_mod(y, d);
    vstd::arithmetic::div_mod::lemma_fundamental_div_mod(x + y, d);
    let qx = x / d;
    let qy = y / d;
    let rx = x % d;
    let ry = y % d;
    assert((x + y) == d * (qx + qy) + (rx + ry)) by (nonlinear_arith)
        requires x == d * qx + rx, y == d * qy + ry;
    assert(0 <= rx + ry);
    vstd::arithmetic::div_mod::lemma_div_is_ordered(d * (qx + qy), x + y, d);
    vstd::arithmetic::div_mod::lemma_div_multiples_vanish(qx + qy, d);
}

/// The royalties of the verified creators never exceed their shares of the total.
proof fn lemma_royalty_sum_bound(creators: Seq<CreatorShare>, total_royalty: int)
    requires
        total_royalty >= 0,
    ensures
        verified_share_total(creators) >= 0,
        royalty_sum(creators, total_royalty) <= total_royalty * verified_share_total(creators) / 100,
    decreases creators.len(),
{
    if creators.len() > 0 {
        let prev = creators.drop_last();
        let c = creators.last();
        lemma_royalty_sum_bound(prev, total_royalty);
        let sp = verified_share_total(prev);
        if c.verified {
            assert(total_royalty * sp >= 0 && total_royalty * c.share >= 0) by (nonlinear_arith)
                requires total_royalty >= 0, sp >= 0, c.share >= 0;
            lemma_floor_add(total_royalty * sp, total_royalty * c.share, 100);
            assert(total_royalty * sp + total_royalty * c.share == total_royalty * (sp + c.share)) by (nonlinear_arith);
        }
    }
}

/// Every royalty entry pays exactly its creator fee, so the entries add up
/// to the royalty sum, whenever that sum fits in 64 bits.
proof fn lemma_entries_total(creators: Seq<CreatorShare>, total_royalty: int)
    requires
        total_royalty >= 0,
        royalty_sum(creators, total_royalty) <= u64::MAX,
    ensures
        royalty_amount_total(verified_royalties(creators, total_royalty)) == royalty_sum(creators, total_royalty),
    decreases creators.len(),
{
    if creators.len() > 0 {
        let prev = creators.drop_last();
        let c = creators.last();
        lemma_royalty_sum_nonneg(prev, total_royalty);
        assert(total_royalty * c.share >= 0) by (nonlinear_arith)
            requires total_royalty >= 0, c.share >= 0;
        lemma_entries_total(prev, total_royalty);
        let entries = verified_royalties(prev, total_royalty);
        if c.verified {
            let e = CreatorRoyalty { address: c.address, share: c.share, amount: creator_fee(total_royalty, c.share) as u64 };
            assert(entries.push(e).drop_last() =~= entries);
        }
    }
}

/// The split leaks nothing: when the verified creators' shares add up to at
/// most 100, the royalties stay within the royalty total, and every split
/// that succeeds pays out the sale price exactly, as platform fee plus the
/// creator fees plus the seller's amount. It succeeds whenever the platform
/// fee rate and the royalty rate together stay within 100%.
pub proof fn lemma_royalty_split_exact(platform_fee_bps: u16, sale_price: u64, meta: RoyaltyMetadataView)
    requires
        verified_share_total(creator_table(meta)) <= 100,
    ensures
        royalty_sum(creator_table(meta), bps_of(sale_price as int, meta.seller_fee_basis_points as int))
            <= bps_of(sale_price as int, meta.seller_fee_basis_points as int),
        royalty_outcome(platform_fee_bps, sale_price, meta) is Ok ==> {
            let b = royalty_outcome(platform_fee_bps, sale_price, meta)->Ok_0;
            &&& b.total_royalty_fee == royalty_amount_total(b.creators)
            &&& b.platform_fee + royalty_amount_total(b.creators) + b.seller_amount == sale_price
        },
        platform_fee_bps + meta.seller_fee_basis_points <= 10000 ==> royalty_outcome(platform_fee_bps, sale_price, meta) is Ok,
{
    let creators = creator_table(meta);
    let s = sale_price as int;
    let p = platform_fee_bps as int;
    let q = meta.seller_fee_basis_points as int;
    let tr = bps_of(s, q);
    assert(s * q >= 0 && s * p >= 0) by (nonlinear_arith)
        requires s >= 0, q >= 0, p >= 0;
    lemma_royalty_sum_bound(creators, tr);
    let st = verified_share_total(creators);
    assert(tr * st / 100 <= tr) by (nonlinear_arith)
        requires tr >= 0, 0 <= st <= 100;
    lemma_royalty_sum_nonneg(creators, tr);
    let pf = bps_of(s, p);
    if royalty_outcome(platform_fee_bps, sale_price, meta) is Ok {
        lemma_entries_total(creators, tr);
    }
    if p + q <= 10000 {
        lemma_floor_add(s * p, s * q, 10000);
        assert(s * p + s * q == s * (p + q)) by (nonlinear_arith);
        assert(s * (p + q) / 10000 <= s) by (nonlinear_arith)
            requires s >= 0, 0 <= p + q <= 10000;
    }
}

} // verus!
