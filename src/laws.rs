use vstd::prelude::*;
use crate::address::Address;
use crate::instructions::{
    after_mint, authority_error, mint_nft_error, new_collection, with_owner, MintNft,
};
use crate::state::{Collection, CollectionError, ProgramFailure};
use crate::token::{mint_decimals, mint_decode_error, mint_supply, token_program_address};

verus! {

/// Mint account data that decodes to an initialized mint with no decimals and
/// nothing minted: the mint of a fresh non-fungible token.
pub open spec fn fresh_nft_mint(mint_data: Seq<u8>) -> bool {
    &&& mint_decode_error(mint_data) is None
    &&& mint_decimals(mint_data) == 0
    &&& mint_supply(mint_data) == 0
}

/// `c` after `k` successful mints.
pub open spec fn minted(c: Collection, k: nat) -> Collection
    decreases k,
{
    if k == 0 {
        c
    } else {
        after_mint(minted(c, (k - 1) as nat))
    }
}

/// A mint whose decimals are not zero is refused as an invalid mint account,
/// whatever the collection's count and the token program account.
pub proof fn lemma_decimals_refused(c: Collection, ctx: MintNft, mint_data: Seq<u8>)
    requires
        authority_error(c, ctx.owner) is None,
        mint_decode_error(mint_data) is None,
        mint_decimals(mint_data) != 0,
    ensures
        mint_nft_error(c, ctx, mint_data) == Some(ProgramFailure::Collection(CollectionError::InvalidMintAccount)),
{
}

/// A mint that already has supply is refused as an invalid mint account,
/// whatever the collection's count and the token program account.
pub proof fn lemma_supply_refused(c: Collection, ctx: MintNft, mint_data: Seq<u8>)
    requires
        authority_error(c, ctx.owner) is None,
        mint_decode_error(mint_data) is None,
        mint_supply(mint_data) != 0,
    ensures
        mint_nft_error(c, ctx, mint_data) == Some(ProgramFailure::Collection(CollectionError::InvalidMintAccount)),
{
}

/// A collection whose count has reached its cap refuses to mint with
/// ExceedAmount (and `mint_nft` then leaves the record unchanged).
pub proof fn lemma_full_collection_refused(c: Collection, ctx: MintNft, mint_data: Seq<u8>)
    requires
        c.current_supply == c.max_supply,
        authority_error(c, ctx.owner) is None,
        fresh_nft_mint(mint_data),
    ensures
        mint_nft_error(c, ctx, mint_data) == Some(ProgramFailure::Collection(CollectionError::ExceedAmount)),
{
}

/// Starting from a new collection with cap `n`, each of `n` mints by the owner
/// with a fresh mint succeeds, the count then stands at `n`, and the next mint
/// fails with ExceedAmount.
pub proof fn lemma_cap_reached(
    owner: Address,
    rand: Address,
    n: u64,
    bump: u8,
    ctx: MintNft,
    mint_data: Seq<u8>,
)
    requires
        ctx.owner@ == owner@,
        ctx.token_program@ == token_program_address(),
        fresh_nft_mint(mint_data),
    ensures
        forall|k: nat| k < n ==> mint_nft_error(#[trigger] minted(new_collection(owner, rand, n, bump), k), ctx, mint_data) is None,
        minted(new_collection(owner, rand, n, bump), n as nat).current_supply == n,
        mint_nft_error(minted(new_collection(owner, rand, n, bump), n as nat), ctx, mint_data)
            == Some(ProgramFailure::Collection(CollectionError::ExceedAmount)),
{
    let c = new_collection(owner, rand, n, bump);
    lemma_minted_fields(c, n as nat);
    assert forall|k: nat| k < n implies mint_nft_error(#[trigger] minted(c, k), ctx, mint_data) is None by {
        lemma_minted_fields(c, k);
    }
}

/// Minting counts up and touches no other field.
pub proof fn lemma_minted_fields(c: Collection, k: nat)
    requires
        c.current_supply + k <= c.max_supply,
    ensures
        minted(c, k) == (Collection { current_supply: (c.current_supply + k) as u64, ..c }),
    decreases k,
{
    if k > 0 {
        lemma_minted_fields(c, (k - 1) as nat);
    }
}

/// Once the owner hands the authority to another address, the new owner may
/// hand it on and the old owner can neither hand it over nor mint.
pub proof fn lemma_authority_moves(c: Collection, new_owner: Address, ctx: MintNft, mint_data: Seq<u8>)
    requires
        new_owner@ != c.owner@,
        ctx.owner@ == c.owner@,
    ensures
        authority_error(with_owner(c, new_owner), new_owner) is None,
        authority_error(with_owner(c, new_owner), c.owner) == Some(ProgramFailure::ConstraintHasOne),
        mint_nft_error(with_owner(c, new_owner), ctx, mint_data) == Some(ProgramFailure::ConstraintHasOne),
{
}

} // verus!
