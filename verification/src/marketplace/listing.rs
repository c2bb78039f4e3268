//! Listings of NFTs for sale, and the slot marker the transfer hook checks.
use vstd::prelude::*;

use crate::keys::Address;

verus! {

/// A listing: the price asked, the seller and its token account, the mint,
/// and the bump of the listing's program-derived address.
#[derive(Clone, Copy, Debug, PartialEq, Eq)]
pub struct ListedNftPda {
    pub bump: u8,
    pub price: u64,
    pub seller: Address,
    pub seller_ata: Address,
    pub mint: Address,
}

/// Bytes of a `ListedNftPda` in account data: a bump, a price and three addresses.
pub const LISTED_NFT_PDA_INIT_SPACE: usize = 105;

/// The slot in which a sale approved the next transfer of an NFT.
#[derive(Clone, Copy, Debug, PartialEq, Eq)]
pub struct EnforcingAccount {
    pub slot: u64,
}

/// Bytes of an `EnforcingAccount` in account data.
pub const ENFORCING_ACCOUNT_INIT_SPACE: usize = 8;

/// The price to list an NFT at, in lamports.
#[derive(Clone, Copy, Debug, PartialEq, Eq)]
pub struct ListNftArgs {
    pub price: u64,
}

/// Accounts of `list_nft`: the seller, the listing being created with the
/// bump of its address, the mint and the seller's token account.
#[derive(Clone, Copy, Debug, PartialEq, Eq)]
pub struct ListNft {
    pub seller: Address,
    pub listed_nft_pda: ListedNftPda,
    pub listed_nft_pda_bump: u8,
    pub mint: Address,
    pub seller_token_account: Address,
}

/// Records the listing, once the seller's token account has been delegated
/// to it and frozen.
pub fn list_nft(accounts: &mut ListNft, args: ListNftArgs)
    ensures
        final(accounts).listed_nft_pda == (ListedNftPda {
            bump: old(accounts).listed_nft_pda_bump,
            price: args.price,
            seller: old(accounts).seller,
            seller_ata: old(accounts).seller_token_account,
            mint: old(accounts).mint,
        }),
        final(accounts).seller == old(accounts).seller,
        final(accounts).listed_nft_pda_bump == old(accounts).listed_nft_pda_bump,
        final(accounts).mint == old(accounts).mint,
        final(accounts).seller_token_account == old(accounts).seller_token_account,
{
    accounts.listed_nft_pda = ListedNftPda {
        bump: accounts.listed_nft_pda_bump,
        mint: accounts.mint,
        price: args.price,
        seller: accounts.seller,
        seller_ata: accounts.seller_token_account,
    };
}

} // verus!
