use vstd::prelude::*;
use spl_token::solana_program::instruction::Instruction;
use spl_token::solana_program::program_error::ProgramError;
use spl_token::solana_program::program_pack::Pack;
use spl_token::solana_program::pubkey::Pubkey;
use crate::address::Address;
use crate::state::{Creator, ProgramFailure};

verus! {

/// An instruction for another on-chain program, ready to be invoked.
#[verifier::external_type_specification]
#[verifier::external_body]
pub struct ExInstruction(Instruction);

/// Length of the token program's mint account data.
pub const MINT_LEN: usize = 82;

/// The four-byte tag of an optional key at `at`: 0 for none, 1 for some.
pub open spec fn option_tag_valid(d: Seq<u8>, at: int) -> bool {
    &&& d[at] == 0 || d[at] == 1
    &&& d[at + 1] == 0
    &&& d[at + 2] == 0
    &&& d[at + 3] == 0
}

/// Mint account layout: optional mint authority (36 bytes), supply (8, little
/// endian), decimals (1), initialized flag (1), optional freeze authority (36).
pub open spec fn mint_layout_valid(d: Seq<u8>) -> bool {
    &&& d.len() == MINT_LEN
    &&& option_tag_valid(d, 0)
    &&& d[45] == 0 || d[45] == 1
    &&& option_tag_valid(d, 46)
}

/// The unsigned little-endian number that `s` encodes.
pub open spec fn le_value(s: Seq<u8>) -> nat
    decreases s.len(),
{
    if s.len() == 0 {
        0
    } else {
        s[0] as nat + 256 * le_value(s.drop_first())
    }
}

pub open spec fn mint_supply(d: Seq<u8>) -> nat {
    le_value(d.subrange(36, 44))
}

pub open spec fn mint_decimals(d: Seq<u8>) -> u8 {
    d[44]
}

/// Why mint account data does not decode, if it does not.
pub open spec fn mint_decode_error(d: Seq<u8>) -> Option<ProgramFailure> {
    if !mint_layout_valid(d) {
        Some(ProgramFailure::InvalidAccountData)
    } else if d[45] == 0 {
        Some(ProgramFailure::UninitializedAccount)
    } else {
        None
    }
}

/// The fields of a mint account that minting reads.
#[derive(Clone, Copy, Debug)]
pub struct MintFields {
    pub supply: u64,
    pub decimals: u8,
}

/// Relies on spl_token's `Mint::unpack`: data of any length but 82, or with an
/// option tag or initialized flag out of range, is invalid account data; an
/// uninitialized mint is refused; else supply and decimals are read from their
/// fixed places.
#[verifier::external_body]
pub(crate) fn unpack_mint(data: &[u8]) -> (r: Result<MintFields, ProgramFailure>)
    ensures
        r is Ok <==> mint_decode_error(data@) is None,
        r is Err ==> r->Err_0 == mint_decode_error(data@)->Some_0,
        r is Ok ==> r->Ok_0.supply == mint_supply(data@) && r->Ok_0.decimals == mint_decimals(data@),
{
    match spl_token::state::Mint::unpack(data) {
        Ok(m) => Ok(MintFields { supply: m.supply, decimals: m.decimals }),
        Err(ProgramError::UninitializedAccount) => Err(ProgramFailure::UninitializedAccount),
        Err(_) => Err(ProgramFailure::InvalidAccountData),
    }
}

/// The token program's address.
pub open spec fn token_program_address() -> Seq<u8> {
    seq![
        6u8, 221, 246, 225, 215, 101, 161, 147, 217, 203, 225, 70, 206, 235, 121, 172,
        28, 180, 133, 237, 95, 91, 55, 145, 58, 140, 245, 133, 126, 255, 0, 169,
    ]
}

/// Arguments of the token program's mint-to instruction.
#[derive(Clone, Copy, Debug)]
pub struct MintToCall {
    pub token_program: Address,
    pub mint: Address,
    pub account: Address,
    pub owner: Address,
    pub amount: u64,
}

/// The mint-to instruction built from `call`, with the owner as the single
/// authority (no multisignature signers).
pub uninterp spec fn mint_to_instruction(call: MintToCall) -> Instruction;

/// Relies on spl_token::instruction::mint_to: it refuses any program id but the
/// token program's, and otherwise builds the instruction from its arguments.
#[verifier::external_body]
pub(crate) fn build_mint_to(call: &MintToCall) -> (r: Result<Instruction, ProgramFailure>)
    ensures
        r is Ok <==> call.token_program@ == token_program_address(),
        r is Err ==> r->Err_0 == ProgramFailure::IncorrectProgramId,
        r is Ok ==> r->Ok_0 == mint_to_instruction(*call),
{
    spl_token::instruction::mint_to(
        &Pubkey::new_from_array(call.token_program.bytes),
        &Pubkey::new_from_array(call.mint.bytes),
        &Pubkey::new_from_array(call.account.bytes),
        &Pubkey::new_from_array(call.owner.bytes),
        &[],
        call.amount,
    ).map_err(|_| ProgramFailure::IncorrectProgramId)
}

/// Arguments of the metadata program's create-metadata (v2) instruction.
#[derive(Clone, Debug)]
pub struct CreateMetadataCall {
    pub program_id: Address,
    pub metadata: Address,
    pub mint: Address,
    pub mint_authority: Address,
    pub payer: Address,
    pub update_authority: Address,
    pub name: String,
    pub symbol: String,
    pub uri: String,
    pub creators: Vec<Creator>,
    pub seller_fee_basis_points: u16,
    pub update_authority_is_signer: bool,
    pub is_mutable: bool,
}

/// The create-metadata instruction built from `call`, with no collection and
/// no uses.
pub uninterp spec fn create_metadata_instruction(call: CreateMetadataCall) -> Instruction;

/// Longest name, symbol or uri, in characters, that the metadata encoding
/// takes: borsh prefixes each string with its length in bytes as a `u32`, and
/// a character takes at most four bytes.
pub const MAX_TEXT_CHARS: usize = 0x3fff_ffff;

/// Relies on mpl_token_metadata::instruction::create_metadata_accounts_v2: the
/// instruction is built from its arguments alone; no collection and no uses.
/// It borsh-encodes them and unwraps the result, which fails only on a string
/// or a list whose length does not fit in a `u32`: `requires` leaves those out.
#[verifier::external_body]
pub(crate) fn build_create_metadata(call: &CreateMetadataCall) -> (r: Instruction)
    requires
        call.name@.len() <= MAX_TEXT_CHARS,
        call.symbol@.len() <= MAX_TEXT_CHARS,
        call.uri@.len() <= MAX_TEXT_CHARS,
        call.creators@.len() <= u32::MAX,
    ensures
        r == create_metadata_instruction(*call),
{
    let c = call.clone();
    let creators = c.creators.iter().map(|x| mpl_token_metadata::state::Creator {
        address: Pubkey::new_from_array(x.address.bytes), verified: x.verified, share: x.share,
    }).collect();
    mpl_token_metadata::instruction::create_metadata_accounts_v2(
        Pubkey::new_from_array(c.program_id.bytes), Pubkey::new_from_array(c.metadata.bytes),
        Pubkey::new_from_array(c.mint.bytes), Pubkey::new_from_array(c.mint_authority.bytes),
        Pubkey::new_from_array(c.payer.bytes), Pubkey::new_from_array(c.update_authority.bytes),
        c.name, c.symbol, c.uri, Some(creators), c.seller_fee_basis_points,
        c.update_authority_is_signer, c.is_mutable, None, None,
    )
}

/// Arguments of the metadata program's create-master-edition (v3) instruction.
#[derive(Clone, Copy, Debug)]
pub struct CreateMasterEditionCall {
    pub program_id: Address,
    pub edition: Address,
    pub mint: Address,
    pub update_authority: Address,
    pub mint_authority: Address,
    pub metadata: Address,
    pub payer: Address,
    pub max_supply: Option<u64>,
}

/// The create-master-edition instruction built from `call`.
pub uninterp spec fn create_master_edition_instruction(call: CreateMasterEditionCall) -> Instruction;

/// Relies on mpl_token_metadata::instruction::create_master_edition_v3: the
/// instruction is built from its arguments alone.
#[verifier::external_body]
pub(crate) fn build_create_master_edition(call: &CreateMasterEditionCall) -> (r: Instruction)
    ensures
        r == create_master_edition_instruction(*call),
{
    mpl_token_metadata::instruction::create_master_edition_v3(
        Pubkey::new_from_array(call.program_id.bytes), Pubkey::new_from_array(call.edition.bytes),
        Pubkey::new_from_array(call.mint.bytes), Pubkey::new_from_array(call.update_authority.bytes),
        Pubkey::new_from_array(call.mint_authority.bytes), Pubkey::new_from_array(call.metadata.bytes),
        Pubkey::new_from_array(call.payer.bytes), call.max_supply,
    )
}

/// Arguments of the metadata program's update-metadata (v1) instruction.
#[derive(Clone, Copy, Debug)]
pub struct UpdateMetadataCall {
    pub program_id: Address,
    pub metadata: Address,
    pub update_authority: Address,
    pub new_update_authority: Option<Address>,
    pub primary_sale_happened: Option<bool>,
}

/// The update-metadata instruction built from `call`, which leaves the
/// metadata's data as it is.
pub uninterp spec fn update_metadata_instruction(call: UpdateMetadataCall) -> Instruction;

/// Relies on mpl_token_metadata::instruction::update_metadata_accounts: the
/// instruction is built from its arguments alone; it carries no new data.
#[verifier::external_body]
pub(crate) fn build_update_metadata(call: &UpdateMetadataCall) -> (r: Instruction)
    ensures
        r == update_metadata_instruction(*call),
{
    mpl_token_metadata::instruction::update_metadata_accounts(
        Pubkey::new_from_array(call.program_id.bytes), Pubkey::new_from_array(call.metadata.bytes),
        Pubkey::new_from_array(call.update_authority.bytes),
        call.new_update_authority.map(|a| Pubkey::new_from_array(a.bytes)),
        None, call.primary_sale_happened,
    )
}

} // verus!
