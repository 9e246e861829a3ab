use vstd::prelude::*;
use spl_token::solana_program::instruction::Instruction;
use crate::address::Address;
use crate::state::{Collection, CollectionError, Creator, Metadata, ProgramFailure};
use crate::token::{
    build_create_master_edition, build_create_metadata, build_mint_to, build_update_metadata,
    create_master_edition_instruction, create_metadata_instruction, mint_decimals,
    mint_decode_error, mint_supply, mint_to_instruction, token_program_address, unpack_mint,
    update_metadata_instruction, CreateMasterEditionCall, MAX_TEXT_CHARS, CreateMetadataCall, MintToCall,
    UpdateMetadataCall,
};

verus! {

/// Accounts of `init_collection`.
#[derive(Clone, Copy, Debug)]
pub struct InitCollection {
    /// The address of the record being created.
    pub collection: Address,
    /// The payer, who becomes the owner.
    pub owner: Address,
    /// The key the collection's address is derived from.
    pub rand: Address,
}

/// Accounts of `set_authority`.
#[derive(Clone, Copy, Debug)]
pub struct SetAuthority {
    /// The signer, who must be the stored owner.
    pub owner: Address,
    /// The address that becomes the owner.
    pub new_owner: Address,
}

/// Accounts of `mint_nft`.
#[derive(Clone, Copy, Debug)]
pub struct MintNft {
    /// The signer, who must be the stored owner; also the mint authority and payer.
    pub owner: Address,
    /// The collection record's own address.
    pub collection: Address,
    pub mint: Address,
    pub token_account: Address,
    pub metadata: Address,
    pub master_edition: Address,
    pub token_metadata_program: Address,
    pub token_program: Address,
}

/// A new collection record.
pub open spec fn new_collection(owner: Address, rand: Address, max_supply: u64, bump: u8) -> Collection {
    Collection { owner, max_supply, current_supply: 0, rand, bump }
}

/// The failure of an instruction that `signer` signs for `c`, if `signer` is not its owner.
pub open spec fn authority_error(c: Collection, signer: Address) -> Option<ProgramFailure> {
    if signer@ == c.owner@ {
        None
    } else {
        Some(ProgramFailure::ConstraintHasOne)
    }
}

pub open spec fn with_owner(c: Collection, owner: Address) -> Collection {
    Collection { owner, ..c }
}

pub open spec fn after_mint(c: Collection) -> Collection {
    Collection { current_supply: (c.current_supply + 1) as u64, ..c }
}

/// The first check of `mint_nft` that fails, in the order they are made.
pub open spec fn mint_nft_error(c: Collection, ctx: MintNft, mint_data: Seq<u8>) -> Option<ProgramFailure> {
    if authority_error(c, ctx.owner) is Some {
        authority_error(c, ctx.owner)
    } else if mint_decode_error(mint_data) is Some {
        mint_decode_error(mint_data)
    } else if mint_decimals(mint_data) != 0 || mint_supply(mint_data) != 0 {
        Some(ProgramFailure::Collection(CollectionError::InvalidMintAccount))
    } else if c.current_supply >= c.max_supply {
        Some(ProgramFailure::Collection(CollectionError::ExceedAmount))
    } else if ctx.token_program@ != token_program_address() {
        Some(ProgramFailure::IncorrectProgramId)
    } else {
        None
    }
}

/// The creators recorded for a minted token: the collection first, verified
/// and with no share, then each supplied creator, unverified, with its share.
pub open spec fn collection_creators(collection: Address, supplied: Seq<Creator>) -> Seq<Creator> {
    seq![Creator { address: collection, verified: true, share: 0 }]
        + supplied.map_values(|c: Creator| Creator { address: c.address, verified: false, share: c.share })
}

/// Creates the record of a collection owned by the payer, with nothing minted.
pub fn init_collection(ctx: &InitCollection, max_supply: u64, bump: u8) -> (r: Collection)
    ensures
        r == new_collection(ctx.owner, ctx.rand, max_supply, bump),
        r.wf(),
{
    Collection { owner: ctx.owner, max_supply, current_supply: 0, rand: ctx.rand, bump }
}

/// Hands the collection's authority over to `ctx.new_owner`; only the stored
/// owner may do so.
pub fn set_authority(collection: &mut Collection, ctx: &SetAuthority) -> (r: Result<(), ProgramFailure>)
    ensures
        r is Err <==> authority_error(*old(collection), ctx.owner) is Some,
        r is Err ==> r->Err_0 == authority_error(*old(collection), ctx.owner)->Some_0
            && *final(collection) == *old(collection),
        r is Ok ==> *final(collection) == with_owner(*old(collection), ctx.new_owner),
{
    if !ctx.owner.same_as(&collection.owner) {
        return Err(ProgramFailure::ConstraintHasOne);
    }
    collection.owner = ctx.new_owner;
    Ok(())
}

/// The creator list of a minted token.
pub fn build_creators(collection: Address, supplied: &Vec<Creator>) -> (r: Vec<Creator>)
    ensures
        r@ == collection_creators(collection, supplied@),
{
    let mut r: Vec<Creator> = Vec::new();
    r.push(Creator { address: collection, verified: true, share: 0 });
    let mut i: usize = 0;
    while i < supplied.len()
        invariant
            0 <= i <= supplied@.len(),
            r@ == collection_creators(collection, supplied@.subrange(0, i as int)),
        decreases supplied@.len() - i,
    {
        let c = supplied[i];
        r.push(Creator { address: c.address, verified: false, share: c.share });
        proof {
            assert(supplied@.subrange(0, i + 1) == supplied@.subrange(0, i as int).push(c));
            assert(r@ =~= collection_creators(collection, supplied@.subrange(0, i + 1)));
        }
        i = i + 1;
    }
    assert(supplied@.subrange(0, i as int) =~= supplied@);
    r
}

/// The cross-program calls that mint one token, in the order they are made:
/// mint one unit, create its metadata, create its master edition, mark its
/// primary sale. The last three are signed with the collection's derived
/// address, whose seeds are `signer_rand`'s bytes and `signer_bump`.
pub struct MintNftCalls {
    pub signer_rand: Address,
    pub signer_bump: u8,
    pub mint_to: MintToCall,
    pub mint_to_ix: Instruction,
    pub create_metadata: CreateMetadataCall,
    pub create_metadata_ix: Instruction,
    pub create_master_edition: CreateMasterEditionCall,
    pub create_master_edition_ix: Instruction,
    pub update_metadata: UpdateMetadataCall,
    pub update_metadata_ix: Instruction,
}

/// Mints one token of the collection: checks the signer, the mint account and
/// the cap, counts the token, and returns the calls that create it.
pub fn mint_nft(collection: &mut Collection, ctx: &MintNft, mint_data: &[u8], data: Metadata) -> (r: Result<MintNftCalls, ProgramFailure>)
    requires
        old(collection).wf(),
        data.name@.len() <= MAX_TEXT_CHARS,
        data.symbol@.len() <= MAX_TEXT_CHARS,
        data.uri@.len() <= MAX_TEXT_CHARS,
        data.creators@.len() < u32::MAX,
    ensures
        final(collection).wf(),
        r is Err <==> mint_nft_error(*old(collection), *ctx, mint_data@) is Some,
        r is Err ==> r->Err_0 == mint_nft_error(*old(collection), *ctx, mint_data@)->Some_0
            && *final(collection) == *old(collection),
        r is Ok ==> *final(collection) == after_mint(*old(collection)),
        r is Ok ==> ({
            let calls = r->Ok_0;
            &&& calls.signer_rand == old(collection).rand
            &&& calls.signer_bump == old(collection).bump
            &&& calls.mint_to == (MintToCall {
                token_program: ctx.token_program,
                mint: ctx.mint,
                account: ctx.token_account,
                owner: ctx.owner,
                amount: 1,
            })
            &&& calls.mint_to_ix == mint_to_instruction(calls.mint_to)
            &&& calls.create_metadata.program_id == ctx.token_metadata_program
            &&& calls.create_metadata.metadata == ctx.metadata
            &&& calls.create_metadata.mint == ctx.mint
            &&& calls.create_metadata.mint_authority == ctx.owner
            &&& calls.create_metadata.payer == ctx.owner
            &&& calls.create_metadata.update_authority == ctx.collection
            &&& calls.create_metadata.name@ == data.name@
            &&& calls.create_metadata.symbol@ == data.symbol@
            &&& calls.create_metadata.uri@ == data.uri@
            &&& calls.create_metadata.creators@ == collection_creators(ctx.collection, data.creators@)
            &&& calls.create_metadata.seller_fee_basis_points == data.seller_fee_basis_points
            &&& calls.create_metadata.update_authority_is_signer
            &&& calls.create_metadata.is_mutable == data.is_mutable
            &&& calls.create_metadata_ix == create_metadata_instruction(calls.create_metadata)
            &&& calls.create_master_edition == (CreateMasterEditionCall {
                program_id: ctx.token_metadata_program,
                edition: ctx.master_edition,
                mint: ctx.mint,
                update_authority: ctx.collection,
                mint_authority: ctx.owner,
                metadata: ctx.metadata,
                payer: ctx.owner,
                max_supply: None,
            })
            &&& calls.create_master_edition_ix == create_master_edition_instruction(calls.create_master_edition)
            &&& calls.update_metadata == (UpdateMetadataCall {
                program_id: ctx.token_metadata_program,
                metadata: ctx.metadata,
                update_authority: ctx.collection,
                new_update_authority: None,
                primary_sale_happened: Some(true),
            })
            &&& calls.update_metadata_ix == update_metadata_instruction(calls.update_metadata)
        }),
{
    if !ctx.owner.same_as(&collection.owner) {
        return Err(ProgramFailure::ConstraintHasOne);
    }
    let mint = match unpack_mint(mint_data) {
        Ok(m) => m,
        Err(e) => {
            return Err(e);
        },
    };
    if mint.decimals != 0 {
        return Err(ProgramFailure::Collection(CollectionError::InvalidMintAccount));
    }
    if mint.supply != 0 {
        return Err(ProgramFailure::Collection(CollectionError::InvalidMintAccount));
    }
    if collection.current_supply >= collection.max_supply {
        return Err(ProgramFailure::Collection(CollectionError::ExceedAmount));
    }
    let mint_to = MintToCall {
        token_program: ctx.token_program,
        mint: ctx.mint,
        account: ctx.token_account,
        owner: ctx.owner,
        amount: 1,
    };
    let mint_to_ix = match build_mint_to(&mint_to) {
        Ok(ix) => ix,
        Err(e) => {
            return Err(e);
        },
    };
    let creators = build_creators(ctx.collection, &data.creators);
    let create_metadata = CreateMetadataCall {
        program_id: ctx.token_metadata_program,
        metadata: ctx.metadata,
        mint: ctx.mint,
        mint_authority: ctx.owner,
        payer: ctx.owner,
        update_authority: ctx.collection,
        name: data.name,
        symbol: data.symbol,
        uri: data.uri,
        creators,
        seller_fee_basis_points: data.seller_fee_basis_points,
        update_authority_is_signer: true,
        is_mutable: data.is_mutable,
    };
    let create_metadata_ix = build_create_metadata(&create_metadata);
    let create_master_edition = CreateMasterEditionCall {
        program_id: ctx.token_metadata_program,
        edition: ctx.master_edition,
        mint: ctx.mint,
        update_authority: ctx.collection,
        mint_authority: ctx.owner,
        metadata: ctx.metadata,
        payer: ctx.owner,
        max_supply: None,
    };
    let create_master_edition_ix = build_create_master_edition(&create_master_edition);
    let update_metadata = UpdateMetadataCall {
        program_id: ctx.token_metadata_program,
        metadata: ctx.metadata,
        update_authority: ctx.collection,
        new_update_authority: None,
        primary_sale_happened: Some(true),
    };
    let update_metadata_ix = build_update_metadata(&update_metadata);
    let signer_rand = collection.rand;
    let signer_bump = collection.bump;
    collection.current_supply = collection.current_supply + 1;
    Ok(MintNftCalls {
        signer_rand,
        signer_bump,
        mint_to,
        mint_to_ix,
        create_metadata,
        create_metadata_ix,
        create_master_edition,
        create_master_edition_ix,
        update_metadata,
        update_metadata_ix,
    })
}

} // verus!
