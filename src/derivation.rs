use vstd::prelude::*;

use crate::address::Address;

verus! {

/// What `Pubkey::try_find_program_address` yields for `seeds` under the
/// program `program`: the derived address and its bump seed, or nothing
/// where the seeds are invalid or no bump gives an address off the curve.
pub uninterp spec fn program_address(seeds: Seq<Seq<u8>>, program: Seq<u8>) -> Option<(Seq<u8>, u8)>;

/// The view of a derived address and bump, if any.
pub open spec fn derived_view(r: Option<(Address, u8)>) -> Option<(Seq<u8>, u8)> {
    match r {
        Some((a, bump)) => Some((a.bytes@, bump)),
        None => None,
    }
}

/// The views of a list of seeds.
pub open spec fn seeds_view(seeds: Seq<Vec<u8>>) -> Seq<Seq<u8>> {
    seeds.map_values(|s: Vec<u8>| s@)
}

/// Relies on `Pubkey::try_find_program_address` of solana-program (through
/// anchor_lang) to derive a program address: the address and the bump
/// depend on the seeds and the program alone.
#[verifier::external_body]
fn try_find_program_address(seeds: &Vec<Vec<u8>>, program: &Address) -> (r: Option<(Address, u8)>)
    ensures
        derived_view(r) == program_address(seeds_view(seeds@), program.bytes@),
{
    let refs: Vec<&[u8]> = seeds.iter().map(|s| s.as_slice()).collect();
    let program_id = anchor_lang::prelude::Pubkey::new_from_array(program.bytes);
    anchor_lang::prelude::Pubkey::try_find_program_address(&refs, &program_id)
        .map(|(key, bump)| (Address { bytes: key.to_bytes() }, bump))
}

/// The address of the token metadata program,
/// `metaqbxxUerdq28cj1RbAWkYQm3ybzjb6a8bt518x1s`, as bytes.
pub open spec fn metadata_program_bytes() -> Seq<u8> {
    seq![
        11u8, 112, 101, 177, 227, 209, 124, 69, 56, 157, 82, 127, 107, 4, 195, 205,
        88, 184, 108, 115, 26, 160, 253, 181, 73, 182, 209, 188, 3, 248, 41, 70,
    ]
}

/// Relies on `mpl_token_metadata::ID`, the address of the token metadata program.
#[verifier::external_body]
fn metadata_program_id() -> (r: Address)
    ensures
        r.bytes@ == metadata_program_bytes(),
{
    Address { bytes: mpl_token_metadata::ID.to_bytes() }
}

/// The eight bytes of `x` in two's complement, least significant first.
pub open spec fn le_bytes_of(x: i64) -> Seq<u8> {
    Seq::new(8, |k: int| ((x as int % 0x1_0000_0000_0000_0000int) / vstd::arithmetic::power::pow(256, k as nat) % 256) as u8)
}

/// Relies on `i64::to_le_bytes`: the two's complement bytes, least significant first.
#[verifier::external_body]
fn le_bytes(x: i64) -> (r: [u8; 8])
    ensures
        r@ == le_bytes_of(x),
{
    x.to_le_bytes()
}

/// The seed that prefixes a metadata account: the bytes of `metadata`.
pub open spec fn metadata_seed() -> Seq<u8> {
    seq![109u8, 101, 116, 97, 100, 97, 116, 97]
}

/// The seed that prefixes an auction's custody: the bytes of `auction`.
pub open spec fn auction_seed() -> Seq<u8> {
    seq![97u8, 117, 99, 116, 105, 111, 110]
}

/// The seed that prefixes a listing's custody: the bytes of `listing`.
pub open spec fn listing_seed() -> Seq<u8> {
    seq![108u8, 105, 115, 116, 105, 110, 103]
}

/// The seed that prefixes an escrow's custody: the bytes of `escrow`.
pub open spec fn escrow_seed() -> Seq<u8> {
    seq![101u8, 115, 99, 114, 111, 119]
}

fn to_byte_vec(s: &[u8]) -> (r: Vec<u8>)
    ensures
        r@ == s@,
{
    let mut v: Vec<u8> = Vec::new();
    let mut i: usize = 0;
    while i < s.len()
        invariant
            i <= s@.len(),
            v@ == s@.subrange(0, i as int),
        decreases s@.len() - i,
    {
        v.push(s[i]);
        i = i + 1;
        proof {
            assert(v@ =~= s@.subrange(0, i as int));
        }
    }
    proof {
        assert(s@.subrange(0, i as int) =~= s@);
    }
    v
}

fn derive3(first: Vec<u8>, second: Vec<u8>, third: Vec<u8>, program: &Address) -> (r: Option<(Address, u8)>)
    ensures
        derived_view(r) == program_address(seq![first@, second@, third@], program.bytes@),
{
    let ghost views = seq![first@, second@, third@];
    let seeds: Vec<Vec<u8>> = vec![first, second, third];
    proof {
        assert(seeds_view(seeds@) =~= views);
    }
    try_find_program_address(&seeds, program)
}

/// The metadata account of the item `mint` and its bump: the address that
/// the metadata program derives from `metadata`, its own address and `mint`.
pub fn find_metadata_account(mint: &Address) -> (r: Option<(Address, u8)>)
    ensures
        derived_view(r) == program_address(
            seq![metadata_seed(), metadata_program_bytes(), mint.bytes@],
            metadata_program_bytes(),
        ),
{
    let program = metadata_program_id();
    let prefix: Vec<u8> = vec![109u8, 101, 116, 97, 100, 97, 116, 97];
    proof {
        assert(prefix@ =~= metadata_seed());
    }
    derive3(prefix, to_byte_vec(&program.bytes), to_byte_vec(&mint.bytes), &program)
}

/// The custodial account of the auction of `mint` by `seller` under the
/// auction program `program`, and its bump.
pub fn auction_custody(program: &Address, mint: &Address, seller: &Address) -> (r: Option<(Address, u8)>)
    ensures
        derived_view(r) == program_address(seq![auction_seed(), mint.bytes@, seller.bytes@], program.bytes@),
{
    let prefix: Vec<u8> = vec![97u8, 117, 99, 116, 105, 111, 110];
    proof {
        assert(prefix@ =~= auction_seed());
    }
    derive3(prefix, to_byte_vec(&mint.bytes), to_byte_vec(&seller.bytes), program)
}

/// The custodial account of the listing of `mint` by `seller` under the
/// listing program `program`, and its bump.
pub fn listing_custody(program: &Address, mint: &Address, seller: &Address) -> (r: Option<(Address, u8)>)
    ensures
        derived_view(r) == program_address(seq![listing_seed(), mint.bytes@, seller.bytes@], program.bytes@),
{
    let prefix: Vec<u8> = vec![108u8, 105, 115, 116, 105, 110, 103];
    proof {
        assert(prefix@ =~= listing_seed());
    }
    derive3(prefix, to_byte_vec(&mint.bytes), to_byte_vec(&seller.bytes), program)
}

/// The custodial account of the escrow that `authority` created at
/// `created_at` under the escrow program `program`, and its bump.
pub fn escrow_custody(program: &Address, authority: &Address, created_at: i64) -> (r: Option<(Address, u8)>)
    ensures
        derived_view(r) == program_address(seq![escrow_seed(), authority.bytes@, le_bytes_of(created_at)], program.bytes@),
{
    let prefix: Vec<u8> = vec![101u8, 115, 99, 114, 111, 119];
    proof {
        assert(prefix@ =~= escrow_seed());
    }
    let time = le_bytes(created_at);
    derive3(prefix, to_byte_vec(&authority.bytes), to_byte_vec(&time), program)
}

} // verus!
