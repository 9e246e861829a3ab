//! An NFT collection program: a capped, counted collection record, and the
//! three instructions that create it, hand its authority over, and mint one
//! non-fungible token into it.

pub mod address;
pub mod state;
pub mod token;
pub mod instructions;
pub mod laws;
