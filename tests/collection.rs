use my_nft::address::Address;
use my_nft::instructions::{
    build_creators, init_collection, mint_nft, set_authority, InitCollection, MintNft,
    SetAuthority,
};
use my_nft::state::{Collection, CollectionError, Creator, Metadata, ProgramFailure, COLLECTION_SIZE};
use spl_token::solana_program::pubkey::Pubkey;

const TOKEN_PROGRAM: [u8; 32] = [
    6, 221, 246, 225, 215, 101, 161, 147, 217, 203, 225, 70, 206, 235, 121, 172, 28, 180, 133,
    237, 95, 91, 55, 145, 58, 140, 245, 133, 126, 255, 0, 169,
];

fn addr(b: u8) -> Address {
    Address::new([b; 32])
}

fn mint_data(supply: u64, decimals: u8, initialized: u8) -> Vec<u8> {
    let mut d = vec![1u8, 0, 0, 0];
    d.extend_from_slice(&[9u8; 32]);
    d.extend_from_slice(&supply.to_le_bytes());
    d.push(decimals);
    d.push(initialized);
    d.extend_from_slice(&[0u8; 36]);
    d
}

fn fresh_mint() -> Vec<u8> {
    mint_data(0, 0, 1)
}

fn accounts(owner: Address) -> MintNft {
    MintNft {
        owner,
        collection: addr(20),
        mint: addr(21),
        token_account: addr(22),
        metadata: addr(23),
        master_edition: addr(24),
        token_metadata_program: addr(25),
        token_program: Address::new(TOKEN_PROGRAM),
    }
}

fn metadata(creators: Vec<Creator>) -> Metadata {
    Metadata {
        name: "Piece".to_string(),
        symbol: "PC".to_string(),
        uri: "https://example.org/piece.json".to_string(),
        seller_fee_basis_points: 500,
        creators,
        is_mutable: true,
    }
}

fn new_collection(max_supply: u64) -> Collection {
    init_collection(&InitCollection { collection: addr(20), owner: addr(1), rand: addr(7) }, max_supply, 254)
}

#[test]
fn init_sets_fields() {
    let c = new_collection(10);
    assert_eq!(c.current_supply, 0);
    assert_eq!(c.max_supply, 10);
    assert_eq!(c.owner.bytes, [1u8; 32]);
    assert_eq!(c.rand.bytes, [7u8; 32]);
    assert_eq!(c.bump, 254);
    assert_eq!(COLLECTION_SIZE, 81);
}

#[test]
fn init_with_zero_cap_refuses_every_mint() {
    let mut c = new_collection(0);
    let r = mint_nft(&mut c, &accounts(addr(1)), &fresh_mint(), metadata(vec![]));
    assert_eq!(r.err(), Some(ProgramFailure::Collection(CollectionError::ExceedAmount)));
    assert_eq!(c.current_supply, 0);
}

#[test]
fn same_as_compares_bytes() {
    let mut b = [3u8; 32];
    assert!(Address::new(b).same_as(&Address::new(b)));
    b[31] = 4;
    assert!(!Address::new(b).same_as(&addr(3)));
}

#[test]
fn set_authority_by_owner() {
    let mut c = new_collection(5);
    let r = set_authority(&mut c, &SetAuthority { owner: addr(1), new_owner: addr(2) });
    assert!(r.is_ok());
    assert_eq!(c.owner.bytes, [2u8; 32]);
    assert_eq!(c.max_supply, 5);
    assert_eq!(c.rand.bytes, [7u8; 32]);
}

#[test]
fn set_authority_by_stranger_fails() {
    let mut c = new_collection(5);
    let r = set_authority(&mut c, &SetAuthority { owner: addr(3), new_owner: addr(3) });
    assert_eq!(r, Err(ProgramFailure::ConstraintHasOne));
    assert_eq!(c.owner.bytes, [1u8; 32]);
}

#[test]
fn old_owner_loses_authority() {
    let mut c = new_collection(5);
    set_authority(&mut c, &SetAuthority { owner: addr(1), new_owner: addr(2) }).unwrap();
    let r = set_authority(&mut c, &SetAuthority { owner: addr(1), new_owner: addr(1) });
    assert_eq!(r, Err(ProgramFailure::ConstraintHasOne));
    let m = mint_nft(&mut c, &accounts(addr(1)), &fresh_mint(), metadata(vec![]));
    assert_eq!(m.err(), Some(ProgramFailure::ConstraintHasOne));
    assert_eq!(c.current_supply, 0);
    let m = mint_nft(&mut c, &accounts(addr(2)), &fresh_mint(), metadata(vec![]));
    assert!(m.is_ok());
    assert_eq!(c.current_supply, 1);
    assert!(set_authority(&mut c, &SetAuthority { owner: addr(2), new_owner: addr(1) }).is_ok());
    assert_eq!(c.owner.bytes, [1u8; 32]);
}

#[test]
fn mint_with_decimals_fails() {
    let mut c = new_collection(5);
    let r = mint_nft(&mut c, &accounts(addr(1)), &mint_data(0, 6, 1), metadata(vec![]));
    assert_eq!(r.err(), Some(ProgramFailure::Collection(CollectionError::InvalidMintAccount)));
    assert_eq!(c.current_supply, 0);
}

#[test]
fn mint_with_decimals_fails_even_when_full() {
    let mut c = new_collection(0);
    let r = mint_nft(&mut c, &accounts(addr(1)), &mint_data(3, 9, 1), metadata(vec![]));
    assert_eq!(r.err(), Some(ProgramFailure::Collection(CollectionError::InvalidMintAccount)));
}

#[test]
fn mint_with_supply_fails() {
    let mut c = new_collection(5);
    let r = mint_nft(&mut c, &accounts(addr(1)), &mint_data(1, 0, 1), metadata(vec![]));
    assert_eq!(r.err(), Some(ProgramFailure::Collection(CollectionError::InvalidMintAccount)));
    assert_eq!(c.current_supply, 0);
}

#[test]
fn mint_when_full_fails_and_keeps_count() {
    let mut c = new_collection(2);
    c.current_supply = 2;
    let r = mint_nft(&mut c, &accounts(addr(1)), &fresh_mint(), metadata(vec![]));
    assert_eq!(r.err(), Some(ProgramFailure::Collection(CollectionError::ExceedAmount)));
    assert_eq!(c.current_supply, 2);
}

#[test]
fn cap_reached_after_n_mints() {
    let n: u64 = 4;
    let mut c = new_collection(n);
    for i in 0..n {
        assert!(mint_nft(&mut c, &accounts(addr(1)), &fresh_mint(), metadata(vec![])).is_ok());
        assert_eq!(c.current_supply, i + 1);
    }
    let r = mint_nft(&mut c, &accounts(addr(1)), &fresh_mint(), metadata(vec![]));
    assert_eq!(r.err(), Some(ProgramFailure::Collection(CollectionError::ExceedAmount)));
    assert_eq!(c.current_supply, n);
}

#[test]
fn single_mint_scenario() {
    let mut c = new_collection(1);
    let supplied = vec![
        Creator { address: addr(30), verified: true, share: 60 },
        Creator { address: addr(31), verified: false, share: 40 },
    ];
    let calls = mint_nft(&mut c, &accounts(addr(1)), &fresh_mint(), metadata(supplied)).unwrap();
    assert_eq!(c.current_supply, 1);
    let creators = &calls.create_metadata.creators;
    assert_eq!(creators.len(), 3);
    assert_eq!(creators[0].address.bytes, [20u8; 32]);
    assert!(creators[0].verified);
    assert_eq!(creators[0].share, 0);
    assert_eq!(creators[1].address.bytes, [30u8; 32]);
    assert!(!creators[1].verified);
    assert_eq!(creators[1].share, 60);
    assert!(!creators[2].verified);
    assert_eq!(creators[2].share, 40);
    assert_eq!(calls.create_metadata.name, "Piece");
    assert_eq!(calls.create_metadata.seller_fee_basis_points, 500);
    assert_eq!(calls.update_metadata.primary_sale_happened, Some(true));
    assert_eq!(calls.create_master_edition.max_supply, None);
    assert_eq!(calls.mint_to.amount, 1);
    let r = mint_nft(&mut c, &accounts(addr(1)), &fresh_mint(), metadata(vec![]));
    assert_eq!(r.err(), Some(ProgramFailure::Collection(CollectionError::ExceedAmount)));
    assert_eq!(c.current_supply, 1);
}

#[test]
fn built_instructions_target_their_programs() {
    let mut c = new_collection(3);
    let calls = mint_nft(&mut c, &accounts(addr(1)), &fresh_mint(), metadata(vec![])).unwrap();
    let token = Pubkey::new_from_array(TOKEN_PROGRAM);
    let metadata_program = Pubkey::new_from_array([25u8; 32]);
    assert_eq!(calls.mint_to_ix.program_id, token);
    assert_eq!(calls.mint_to_ix.accounts[0].pubkey, Pubkey::new_from_array([21u8; 32]));
    assert_eq!(calls.mint_to_ix.accounts[1].pubkey, Pubkey::new_from_array([22u8; 32]));
    assert!(calls.mint_to_ix.accounts[2].is_signer);
    assert_eq!(calls.create_metadata_ix.program_id, metadata_program);
    assert_eq!(calls.create_metadata_ix.accounts[0].pubkey, Pubkey::new_from_array([23u8; 32]));
    assert_eq!(calls.create_metadata_ix.accounts[4].pubkey, Pubkey::new_from_array([20u8; 32]));
    assert!(calls.create_metadata_ix.accounts[4].is_signer);
    assert_eq!(calls.create_master_edition_ix.program_id, metadata_program);
    assert_eq!(calls.create_master_edition_ix.accounts[0].pubkey, Pubkey::new_from_array([24u8; 32]));
    assert_eq!(calls.update_metadata_ix.program_id, metadata_program);
    assert_eq!(calls.update_metadata_ix.accounts[1].pubkey, Pubkey::new_from_array([20u8; 32]));
    assert_eq!(calls.mint_to_ix.program_id, spl_token::id());
}

#[test]
fn short_mint_data_is_invalid() {
    let mut c = new_collection(3);
    let mut d = fresh_mint();
    d.pop();
    let r = mint_nft(&mut c, &accounts(addr(1)), &d, metadata(vec![]));
    assert_eq!(r.err(), Some(ProgramFailure::InvalidAccountData));
}

#[test]
fn bad_option_tag_is_invalid() {
    let mut c = new_collection(3);
    let mut d = fresh_mint();
    d[46] = 2;
    let r = mint_nft(&mut c, &accounts(addr(1)), &d, metadata(vec![]));
    assert_eq!(r.err(), Some(ProgramFailure::InvalidAccountData));
}

#[test]
fn uninitialized_mint_is_refused() {
    let mut c = new_collection(3);
    let r = mint_nft(&mut c, &accounts(addr(1)), &mint_data(0, 0, 0), metadata(vec![]));
    assert_eq!(r.err(), Some(ProgramFailure::UninitializedAccount));
    assert_eq!(c.current_supply, 0);
}

#[test]
fn wrong_token_program_is_refused() {
    let mut c = new_collection(3);
    let mut ctx = accounts(addr(1));
    ctx.token_program = addr(40);
    let r = mint_nft(&mut c, &ctx, &fresh_mint(), metadata(vec![]));
    assert_eq!(r.err(), Some(ProgramFailure::IncorrectProgramId));
    assert_eq!(c.current_supply, 0);
}

#[test]
fn creators_list_puts_collection_first() {
    let supplied = vec![Creator { address: addr(5), verified: true, share: 100 }];
    let r = build_creators(addr(9), &supplied);
    assert_eq!(r.len(), 2);
    assert_eq!(r[0].address.bytes, [9u8; 32]);
    assert!(r[0].verified);
    assert_eq!(r[0].share, 0);
    assert_eq!(r[1].address.bytes, [5u8; 32]);
    assert!(!r[1].verified);
    assert_eq!(r[1].share, 100);
    assert_eq!(build_creators(addr(9), &vec![]).len(), 1);
}

#[test]
fn error_messages() {
    assert_eq!(CollectionError::InvalidMintAccount.message(), "Invalid mint account");
    assert_eq!(CollectionError::ExceedAmount.message(), "Exeed amount");
    assert_eq!(CollectionError::TokenMintToFailed.message(), "Token mint to failed");
    assert_eq!(CollectionError::TokenSetAuthorityFailed.message(), "Token set authority failed");
    assert_eq!(CollectionError::TokenTransferFailed.message(), "Token transfer failed");
}

#[test]
fn metadata_calls_signed_with_collection_seeds() {
    let mut c = new_collection(2);
    let calls = mint_nft(&mut c, &accounts(addr(1)), &fresh_mint(), metadata(vec![])).unwrap();
    assert_eq!(calls.signer_rand.bytes, [7u8; 32]);
    assert_eq!(calls.signer_bump, 254);
}
