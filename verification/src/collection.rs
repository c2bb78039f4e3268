//! NFT collections: a group mint with its configuration, and member mints.
use vstd::prelude::*;

use crate::errors::{ConstraintError, MetadataErrors};
use crate::keys::Address;

verus! {

/// What a mint account says of its supply: whether it still has a mint
/// authority, its decimals and its supply.
#[derive(Clone, Copy, Debug, PartialEq, Eq)]
pub struct MintState {
    pub has_mint_authority: bool,
    pub decimals: u8,
    pub supply: u64,
}

impl MintState {
    /// Whether the mint is a finished NFT: no mint authority, no decimals and
    /// a supply of exactly one.
    pub fn is_closed_single_nft(&self) -> (r: bool)
        ensures
            r == (!self.has_mint_authority && self.decimals == 0 && self.supply == 1),
    {
        !self.has_mint_authority && self.decimals == 0 && self.supply == 1
    }
}

/// The configuration of a collection, kept beside its group mint.
#[derive(Clone, Copy, Debug, PartialEq, Eq)]
pub struct TokenGroup {
    pub update_authority: Address,
    pub mint: Address,
    pub size: u32,
    pub max_size: u32,
}

impl TokenGroup {
    /// Counts one more member and gives its number, the new size; refused
    /// with `SizeExceedsMaxSize` (and nothing changed) when the group is
    /// full.
    pub fn increment_size(&mut self) -> (r: Result<u32, MetadataErrors>)
        ensures
            old(self).size < old(self).max_size ==> r == Ok::<u32, MetadataErrors>((old(self).size + 1) as u32)
                && *final(self) == (TokenGroup { size: (old(self).size + 1) as u32, ..*old(self) }),
            old(self).size >= old(self).max_size ==> r == Err::<u32, MetadataErrors>(MetadataErrors::SizeExceedsMaxSize)
                && *final(self) == *old(self),
    {
        if self.size >= self.max_size {
            return Err(MetadataErrors::SizeExceedsMaxSize);
        }
        let new_size = self.size + 1;
        self.size = new_size;
        Ok(new_size)
    }
}

/// The configuration of one member of a collection.
#[derive(Clone, Copy, Debug, PartialEq, Eq)]
pub struct TokenGroupMember {
    pub group: Address,
    pub mint: Address,
    pub member_number: u32,
}

/// The name, symbol, URI and maximum size of a new collection.
#[derive(Clone, Debug, PartialEq, Eq)]
pub struct CreateGroupArgs {
    pub name: String,
    pub symbol: String,
    pub uri: String,
    pub max_size: u32,
}

/// Accounts of `collection_mint`: the payer, the new group mint and its
/// configuration.
#[derive(Clone, Copy, Debug, PartialEq, Eq)]
pub struct CreateGroupMint {
    pub payer: Address,
    pub group_mint: Address,
    pub group_data_account: TokenGroup,
}

impl CreateGroupMint {
    /// Sets up the configuration: the given maximum size, the payer as update
    /// authority, the group mint, and no members yet.
    pub fn initialize_group_configuration(&mut self, max_size: u32)
        ensures
            final(self).group_data_account == (TokenGroup {
                update_authority: old(self).payer,
                mint: old(self).group_mint,
                size: 0,
                max_size,
            }),
            final(self).payer == old(self).payer,
            final(self).group_mint == old(self).group_mint,
    {
        self.group_data_account.max_size = max_size;
        self.group_data_account.update_authority = self.payer;
        self.group_data_account.mint = self.group_mint;
        self.group_data_account.size = 0;
    }
}

/// The name, symbol and URI of a new member NFT.
#[derive(Clone, Debug, PartialEq, Eq)]
pub struct MintNftArgs {
    pub name: String,
    pub symbol: String,
    pub uri: String,
}

/// Accounts of `mint_nft`: the payer, the group mint and its configuration,
/// the new member mint and its configuration.
#[derive(Clone, Copy, Debug, PartialEq, Eq)]
pub struct MintNft {
    pub payer: Address,
    pub group_mint: Address,
    pub group_mint_state: MintState,
    pub group_data_key: Address,
    pub group_data_account: TokenGroup,
    pub mint: Address,
    pub member_data_account: TokenGroupMember,
}

/// Whether the accounts meet the declared constraints of minting a member:
/// the group mint is a finished NFT, and the configuration is that of the
/// group mint with the payer as update authority.
pub open spec fn mint_nft_constraints_hold(a: MintNft) -> bool {
    &&& !a.group_mint_state.has_mint_authority
    &&& a.group_mint_state.decimals == 0
    &&& a.group_mint_state.supply == 1
    &&& a.group_data_account.mint@ == a.group_mint@
    &&& a.group_data_account.update_authority@ == a.payer@
}

impl MintNft {
    /// Checks the declared constraints of minting a member.
    pub fn check_constraints(&self) -> (r: Result<(), ConstraintError>)
        ensures
            r is Ok <==> mint_nft_constraints_hold(*self),
            r matches Err(e) ==> e == ConstraintError::ConstraintRaw,
    {
        if !self.group_mint_state.is_closed_single_nft() {
            return Err(ConstraintError::ConstraintRaw);
        }
        if !(self.group_data_account.mint.same_as(&self.group_mint)
            && self.group_data_account.update_authority.same_as(&self.payer)) {
            return Err(ConstraintError::ConstraintRaw);
        }
        Ok(())
    }

    /// Counts the new member in the group and sets up its configuration:
    /// its group, its mint and its number in the group, the group's new
    /// size.  Refused with `SizeExceedsMaxSize`, nothing changed, when the
    /// group is full.
    pub fn initialize_member_configuration(&mut self) -> (r: Result<(), MetadataErrors>)
        ensures
            old(self).group_data_account.size < old(self).group_data_account.max_size ==> {
                &&& r is Ok
                &&& final(self).group_data_account == (TokenGroup {
                    size: (old(self).group_data_account.size + 1) as u32,
                    ..old(self).group_data_account
                })
                &&& final(self).member_data_account == (TokenGroupMember {
                    group: old(self).group_data_key,
                    mint: old(self).mint,
                    member_number: (old(self).group_data_account.size + 1) as u32,
                })
            },
            old(self).group_data_account.size >= old(self).group_data_account.max_size ==> r == Err::<(), MetadataErrors>(
                MetadataErrors::SizeExceedsMaxSize,
            ) && *final(self) == *old(self),
            final(self).payer == old(self).payer,
            final(self).group_mint == old(self).group_mint,
            final(self).group_mint_state == old(self).group_mint_state,
            final(self).group_data_key == old(self).group_data_key,
            final(self).mint == old(self).mint,
    {
        let member_number = match self.group_data_account.increment_size() {
            Ok(n) => n,
            Err(e) => return Err(e),
        };
        self.member_data_account.group = self.group_data_key;
        self.member_data_account.mint = self.mint;
        self.member_data_account.member_number = member_number;
        Ok(())
    }
}

} // verus!
