//! A transfer hook that only lets an NFT move while the token program is
//! transferring it, with an enforcing account that only the marketplace may
//! stamp.
use anchor_lang::solana_program::program_error::ProgramError;
use vstd::prelude::*;

use crate::errors::{MarketplaceError, MetadataErrors};
use crate::keys::Address;
use crate::spl::{
    extra_account_meta_list_size, extra_meta_list_data, metas_view, read_transferring_flag,
    token_account_transferring, write_extra_account_meta_list, ExtraAccountMeta,
};

pub use crate::marketplace::listing::EnforcingAccount;

verus! {

/// The bytes of the marketplace program's address
/// (`HuLA2mESUMReZJbQvx2nbFFrQNJw6jWLvKF1akf4PUqq`).
pub open spec fn marketplace_program_bytes() -> Seq<u8> {
    seq![
        251u8, 34, 218, 48, 227, 146, 3, 178, 149, 189, 128, 252, 29, 218, 219, 136,
        214, 181, 159, 165, 150, 203, 129, 221, 31, 145, 27, 140, 243, 109, 29, 124,
    ]
}

/// The address of the marketplace program.
pub fn marketplace_program_id() -> (r: Address)
    ensures
        r@ == marketplace_program_bytes(),
{
    let r = Address {
        bytes: [
            251u8, 34, 218, 48, 227, 146, 3, 178, 149, 189, 128, 252, 29, 218, 219, 136,
            214, 181, 159, 165, 150, 203, 129, 221, 31, 145, 27, 140, 243, 109, 29, 124,
        ],
    };
    assert(r.bytes@ =~= seq![
        251u8, 34, 218, 48, 227, 146, 3, 178, 149, 189, 128, 252, 29, 218, 219, 136,
        214, 181, 159, 165, 150, 203, 129, 221, 31, 145, 27, 140, 243, 109, 29, 124,
    ]);
    r
}

/// Accounts of the hook's execute instruction: the data of the source token
/// account.
#[derive(Clone, Debug, PartialEq, Eq)]
pub struct TransferHook {
    pub source_token_account_data: Vec<u8>,
}

/// An error of the hook.
#[derive(Debug)]
pub enum HookError {
    Program(ProgramError),
    Metadata(MetadataErrors),
}

impl TransferHook {
    /// Checks that the source token account is in the middle of a transfer.
    pub fn check_is_transferring(&self) -> (r: Result<(), HookError>)
        ensures
            match token_account_transferring(self.source_token_account_data@) {
                None => r matches Err(HookError::Program(_)),
                Some(false) => r matches Err(HookError::Metadata(MetadataErrors::IsNotCurrentlyTransferring)),
                Some(true) => r is Ok,
            },
    {
        match read_transferring_flag(self.source_token_account_data.as_slice()) {
            Err(e) => Err(HookError::Program(e)),
            Ok(false) => Err(HookError::Metadata(MetadataErrors::IsNotCurrentlyTransferring)),
            Ok(true) => Ok(()),
        }
    }
}

/// The hook's execute instruction: a transfer goes through only while the
/// token program is transferring from the source account.
pub fn execute_hook(accounts: &TransferHook) -> (r: Result<(), HookError>)
    ensures
        match token_account_transferring(accounts.source_token_account_data@) {
            None => r matches Err(HookError::Program(_)),
            Some(false) => r matches Err(HookError::Metadata(MetadataErrors::IsNotCurrentlyTransferring)),
            Some(true) => r is Ok,
        },
{
    accounts.check_is_transferring()
}

/// Accounts of `set_enforcement`: the enforcing account of a mint.
#[derive(Clone, Copy, Debug, PartialEq, Eq)]
pub struct SetEnforcement {
    pub enforcing_account: EnforcingAccount,
}

/// Stamps the enforcing account with `slot`, when the instruction being run
/// (`calling_program`) is the marketplace's.
pub fn set_enforcement(accounts: &mut SetEnforcement, calling_program: &Address, slot: u64) -> (r: Result<(), MarketplaceError>)
    ensures
        calling_program@ == marketplace_program_bytes() <==> r is Ok,
        r is Ok ==> final(accounts).enforcing_account.slot == slot,
        r matches Err(e) ==> e == MarketplaceError::RequireMarketplaceProgram && *final(accounts) == *old(accounts),
{
    let marketplace = marketplace_program_id();
    if !calling_program.same_as(&marketplace) {
        return Err(MarketplaceError::RequireMarketplaceProgram);
    }
    accounts.enforcing_account.slot = slot;
    Ok(())
}

/// Accounts of `initialize_extra_account_meta_list`: the data of the list's
/// account and the address of the mint's enforcing account.
#[derive(Clone, Debug, PartialEq, Eq)]
pub struct InitializeExtraAccountMetaList {
    pub extra_account_meta_list: Vec<u8>,
    pub enforcing_account: Address,
}

impl InitializeExtraAccountMetaList {
    /// The extra account the hook needs: the enforcing account, read-only
    /// and writable as `new_with_pubkey(.., false, true)` sets it.
    pub fn extra_account_metas(enforcing_account: &Address) -> (r: Vec<ExtraAccountMeta>)
        ensures
            r@.len() == 1,
            r@[0].discriminator == 0,
            r@[0].address_config == enforcing_account.bytes,
            !r@[0].is_signer,
            r@[0].is_writable,
    {
        let mut metas = Vec::new();
        metas.push(ExtraAccountMeta::new_with_pubkey(enforcing_account, false, true));
        metas
    }

    /// The data size of the list's account: a list of one meta.
    pub fn extra_account_meta_list_space(enforcing_account: &Address) -> (r: Result<usize, ProgramError>)
        ensures
            r is Ok,
            r matches Ok(n) ==> n == 51,
    {
        let metas = InitializeExtraAccountMetaList::extra_account_metas(enforcing_account);
        extra_account_meta_list_size(metas.len())
    }
}

/// Writes the list of extra account metas (the enforcing account) into the
/// freshly created list account; this succeeds exactly when the account
/// holds at least the 51 bytes of a one-meta list.
pub fn initialize_extra_account_meta_list(accounts: &mut InitializeExtraAccountMetaList) -> (r: Result<(), ProgramError>)
    requires
        forall|i: int| 0 <= i < old(accounts).extra_account_meta_list@.len() ==> #[trigger] old(accounts).extra_account_meta_list@[i] == 0u8,
    ensures
        final(accounts).enforcing_account == old(accounts).enforcing_account,
        final(accounts).extra_account_meta_list@.len() == old(accounts).extra_account_meta_list@.len(),
        r is Ok <==> old(accounts).extra_account_meta_list@.len() >= 51,
        r is Ok ==> final(accounts).extra_account_meta_list@ == extra_meta_list_data(
            old(accounts).extra_account_meta_list@,
            seq![(0u8, old(accounts).enforcing_account.bytes@, false, true)],
        ),
{
    let metas = InitializeExtraAccountMetaList::extra_account_metas(&accounts.enforcing_account);
    proof {
        assert(metas_view(metas@) =~= seq![(0u8, accounts.enforcing_account.bytes@, false, true)]);
    }
    write_extra_account_meta_list(&mut accounts.extra_account_meta_list, &metas)
}

} // verus!
