use std::str::FromStr;

use anchor_lang::prelude::Pubkey;
use anchor_spl::token_2022::spl_token_2022::extension::transfer_hook::TransferHookAccount;
use anchor_spl::token_2022::spl_token_2022::extension::{
    BaseStateWithExtensionsMut, ExtensionType, StateWithExtensionsMut,
};
use anchor_spl::token_2022::spl_token_2022::state::{Account, AccountState, Mint};
use solana_programs::collection::{
    CreateGroupMint, MintNft, MintState, TokenGroup, TokenGroupMember,
};
use solana_programs::enforced_transfer_hook::{
    execute_hook, initialize_extra_account_meta_list, marketplace_program_id, set_enforcement,
    EnforcingAccount, HookError, InitializeExtraAccountMetaList, SetEnforcement, TransferHook,
};
use solana_programs::errors::{ConstraintError, MarketplaceError, MetadataErrors};
use solana_programs::keys::Address;
use solana_programs::royalty_transfer_hook::AddRoyalties;
use solana_programs::token_2022::Space;
use spl_tlv_account_resolution::state::ExtraAccountMetaList;

fn addr(b: u8) -> Address {
    Address::new([b; 32])
}

/// The data of an initialised token-2022 token account with the
/// transfer-hook extension, its `transferring` flag set to `transferring`.
fn token_account_data(transferring: bool) -> Vec<u8> {
    let len = ExtensionType::try_calculate_account_len::<Account>(&[ExtensionType::TransferHookAccount]).unwrap();
    let mut data = vec![0u8; len];
    let mut state = StateWithExtensionsMut::<Account>::unpack_uninitialized(&mut data).unwrap();
    state.base = Account { state: AccountState::Initialized, amount: 1, ..Default::default() };
    state.pack_base();
    state.init_account_type().unwrap();
    let extension = state.init_extension::<TransferHookAccount>(true).unwrap();
    extension.transferring = transferring.into();
    data
}

#[test]
fn hook_lets_transfers_through_only_while_transferring() {
    let moving = TransferHook { source_token_account_data: token_account_data(true) };
    assert!(moving.check_is_transferring().is_ok());
    assert!(execute_hook(&moving).is_ok());
    let idle = TransferHook { source_token_account_data: token_account_data(false) };
    assert!(matches!(
        idle.check_is_transferring(),
        Err(HookError::Metadata(MetadataErrors::IsNotCurrentlyTransferring))
    ));
    let garbage = TransferHook { source_token_account_data: vec![7u8; 20] };
    assert!(matches!(execute_hook(&garbage), Err(HookError::Program(_))));
}

#[test]
fn marketplace_id_is_the_listed_program() {
    let expected = Pubkey::from_str("HuLA2mESUMReZJbQvx2nbFFrQNJw6jWLvKF1akf4PUqq").unwrap();
    assert_eq!(marketplace_program_id().bytes, expected.to_bytes());
}

#[test]
fn only_the_marketplace_sets_enforcement() {
    let mut accounts = SetEnforcement { enforcing_account: EnforcingAccount { slot: 3 } };
    assert_eq!(set_enforcement(&mut accounts, &addr(1), 50), Err(MarketplaceError::RequireMarketplaceProgram));
    assert_eq!(accounts.enforcing_account.slot, 3);
    assert_eq!(set_enforcement(&mut accounts, &marketplace_program_id(), 50), Ok(()));
    assert_eq!(accounts.enforcing_account.slot, 50);
}

#[test]
fn meta_list_holds_the_enforcing_account() {
    let enforcing = addr(12);
    let metas = InitializeExtraAccountMetaList::extra_account_metas(&enforcing);
    assert_eq!(metas.len(), 1);
    assert_eq!(metas[0].address_config, enforcing.bytes);
    assert!(!metas[0].is_signer && metas[0].is_writable);
    let space = InitializeExtraAccountMetaList::extra_account_meta_list_space(&enforcing).unwrap();
    assert_eq!(space, 51);
    assert_eq!(space, ExtraAccountMetaList::size_of(1).unwrap());
    let mut accounts = InitializeExtraAccountMetaList { extra_account_meta_list: vec![0u8; space], enforcing_account: enforcing };
    initialize_extra_account_meta_list(&mut accounts).unwrap();
    let data = &accounts.extra_account_meta_list;
    assert_eq!(&data[0..8], &[105u8, 37, 101, 197, 75, 251, 102, 26]);
    assert_eq!(&data[8..12], &39u32.to_le_bytes());
    assert_eq!(&data[12..16], &1u32.to_le_bytes());
    assert_eq!(data[16], 0);
    assert_eq!(&data[17..49], &enforcing.bytes);
    assert_eq!(&data[49..51], &[0, 1]);
}

#[test]
fn meta_list_init_fails_without_room() {
    let mut accounts = InitializeExtraAccountMetaList { extra_account_meta_list: vec![0u8; 30], enforcing_account: addr(1) };
    assert!(initialize_extra_account_meta_list(&mut accounts).is_err());
    assert_eq!(accounts.extra_account_meta_list.len(), 30);
}

#[test]
fn royalty_hook_needs_no_extra_accounts() {
    assert!(AddRoyalties::extra_account_metas().is_empty());
}

#[test]
fn mint_with_metadata_pointer_size() {
    let n = Space::mint_size_with_metadata_pointer().unwrap();
    assert_eq!(n, 234);
    assert_eq!(n, ExtensionType::try_calculate_account_len::<Mint>(&[ExtensionType::MetadataPointer]).unwrap());
}

#[test]
fn group_configuration_starts_empty() {
    let mut accounts = CreateGroupMint {
        payer: addr(1),
        group_mint: addr(2),
        group_data_account: TokenGroup { update_authority: addr(0), mint: addr(0), size: 9, max_size: 9 },
    };
    accounts.initialize_group_configuration(100);
    assert_eq!(accounts.group_data_account, TokenGroup { update_authority: addr(1), mint: addr(2), size: 0, max_size: 100 });
}

#[test]
fn member_configuration_names_its_group() {
    let mut accounts = MintNft {
        payer: addr(1),
        group_mint: addr(2),
        group_mint_state: MintState { has_mint_authority: false, decimals: 0, supply: 1 },
        group_data_key: addr(3),
        group_data_account: TokenGroup { update_authority: addr(1), mint: addr(2), size: 0, max_size: 10 },
        mint: addr(4),
        member_data_account: TokenGroupMember { group: addr(0), mint: addr(0), member_number: 0 },
    };
    assert_eq!(accounts.check_constraints(), Ok(()));
    assert_eq!(accounts.initialize_member_configuration(), Ok(()));
    assert_eq!(accounts.member_data_account, TokenGroupMember { group: addr(3), mint: addr(4), member_number: 1 });
    assert_eq!(accounts.group_data_account.size, 1);
    accounts.group_data_account.update_authority = addr(9);
    assert_eq!(accounts.check_constraints(), Err(ConstraintError::ConstraintRaw));
    accounts.group_data_account.update_authority = addr(1);
    accounts.group_mint_state.has_mint_authority = true;
    assert_eq!(accounts.check_constraints(), Err(ConstraintError::ConstraintRaw));
    assert!(!MintState { has_mint_authority: false, decimals: 2, supply: 1 }.is_closed_single_nft());
}

#[test]
fn meta_list_init_needs_exactly_its_size() {
    let mut short = InitializeExtraAccountMetaList { extra_account_meta_list: vec![0u8; 50], enforcing_account: addr(2) };
    assert!(initialize_extra_account_meta_list(&mut short).is_err());
    let mut exact = InitializeExtraAccountMetaList { extra_account_meta_list: vec![0u8; 51], enforcing_account: addr(2) };
    assert!(initialize_extra_account_meta_list(&mut exact).is_ok());
    let mut roomy = InitializeExtraAccountMetaList { extra_account_meta_list: vec![0u8; 80], enforcing_account: addr(2) };
    assert!(initialize_extra_account_meta_list(&mut roomy).is_ok());
}

#[test]
fn members_are_numbered_up_to_the_maximum() {
    let mut accounts = MintNft {
        payer: addr(1),
        group_mint: addr(2),
        group_mint_state: MintState { has_mint_authority: false, decimals: 0, supply: 1 },
        group_data_key: addr(3),
        group_data_account: TokenGroup { update_authority: addr(1), mint: addr(2), size: 0, max_size: 2 },
        mint: addr(4),
        member_data_account: TokenGroupMember { group: addr(0), mint: addr(0), member_number: 0 },
    };
    assert_eq!(accounts.initialize_member_configuration(), Ok(()));
    assert_eq!(accounts.member_data_account.member_number, 1);
    accounts.mint = addr(5);
    assert_eq!(accounts.initialize_member_configuration(), Ok(()));
    assert_eq!(accounts.member_data_account, TokenGroupMember { group: addr(3), mint: addr(5), member_number: 2 });
    assert_eq!(accounts.group_data_account.size, 2);
    let before = accounts;
    accounts.mint = addr(6);
    let full = accounts;
    assert_eq!(accounts.initialize_member_configuration(), Err(MetadataErrors::SizeExceedsMaxSize));
    assert_eq!(accounts, full);
    assert_eq!(before.group_data_account.size, 2);
    let mut top = TokenGroup { update_authority: addr(1), mint: addr(2), size: u32::MAX, max_size: u32::MAX };
    assert_eq!(top.increment_size(), Err(MetadataErrors::SizeExceedsMaxSize));
    assert_eq!(top.size, u32::MAX);
}
