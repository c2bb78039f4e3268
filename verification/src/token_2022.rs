//! Token-2022 mints that carry their own metadata.
use anchor_lang::solana_program::program_error::ProgramError;
use vstd::prelude::*;

use crate::spl::mint_len_with_metadata_pointer;

verus! {

/// Account sizes of token-2022 mints.
pub struct Space;

impl Space {
    /// The data size of a mint with the metadata-pointer extension.
    pub fn mint_size_with_metadata_pointer() -> (r: Result<usize, ProgramError>)
        ensures
            r is Ok,
            r matches Ok(n) ==> n == 234,
    {
        mint_len_with_metadata_pointer()
    }
}

/// The name, symbol and URI of a token's metadata.
#[derive(Clone, Debug, PartialEq, Eq)]
pub struct TokenMetadataArgs {
    pub name: String,
    pub symbol: String,
    pub uri: String,
}

} // verus!
