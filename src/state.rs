use vstd::prelude::*;
use crate::address::Address;

verus! {

/// The persisted record of one collection.
#[derive(Clone, Copy, Debug)]
pub struct Collection {
    /// The authority allowed to mint and to hand the authority over.
    pub owner: Address,
    /// The cap on the number of tokens minted into the collection.
    pub max_supply: u64,
    /// The number of tokens minted so far.
    pub current_supply: u64,
    /// The key the collection's address is derived from.
    pub rand: Address,
    /// The derivation discriminant of the collection's address.
    pub bump: u8,
}

/// Size of a serialized `Collection`, without the account discriminator.
pub const COLLECTION_SIZE: usize = 32 + 8 + 8 + 1 + 32;

impl Collection {
    /// The count never passes the cap.
    pub open spec fn wf(&self) -> bool {
        self.current_supply <= self.max_supply
    }
}

/// One creator of a token, as the metadata program records it.
#[derive(Clone, Copy, Debug)]
pub struct Creator {
    pub address: Address,
    pub verified: bool,
    /// Share of royalties, in percent.
    pub share: u8,
}

/// The metadata supplied for a token being minted.
#[derive(Clone, Debug)]
pub struct Metadata {
    pub name: String,
    pub symbol: String,
    pub uri: String,
    pub seller_fee_basis_points: u16,
    pub creators: Vec<Creator>,
    pub is_mutable: bool,
}

/// The program's own error codes.
#[derive(Clone, Copy, Debug, PartialEq, Eq, Structural)]
pub enum CollectionError {
    TokenMintToFailed,
    TokenSetAuthorityFailed,
    TokenTransferFailed,
    InvalidMintAccount,
    ExceedAmount,
}

impl CollectionError {
    /// The message that goes with each error code.
    pub fn message(&self) -> (r: &'static str)
        ensures
            *self == CollectionError::TokenMintToFailed ==> r@ == "Token mint to failed"@,
            *self == CollectionError::TokenSetAuthorityFailed ==> r@ == "Token set authority failed"@,
            *self == CollectionError::TokenTransferFailed ==> r@ == "Token transfer failed"@,
            *self == CollectionError::InvalidMintAccount ==> r@ == "Invalid mint account"@,
            *self == CollectionError::ExceedAmount ==> r@ == "Exeed amount"@,
    {
        match self {
            CollectionError::TokenMintToFailed => "Token mint to failed",
            CollectionError::TokenSetAuthorityFailed => "Token set authority failed",
            CollectionError::TokenTransferFailed => "Token transfer failed",
            CollectionError::InvalidMintAccount => "Invalid mint account",
            CollectionError::ExceedAmount => "Exeed amount",
        }
    }
}

/// Every way an instruction of this program can fail.
#[derive(Clone, Copy, Debug, PartialEq, Eq, Structural)]
pub enum ProgramFailure {
    /// One of the program's own error codes.
    Collection(CollectionError),
    /// The signer is not the collection's stored owner.
    ConstraintHasOne,
    /// The mint account's data does not have the token program's mint layout.
    InvalidAccountData,
    /// The mint account has the layout but is not initialized.
    UninitializedAccount,
    /// The account given as the token program is not the token program.
    IncorrectProgramId,
}

} // verus!
