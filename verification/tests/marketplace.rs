use anchor_lang::prelude::Pubkey;
use anchor_spl::token_2022::spl_token_2022::extension::{
    BaseStateWithExtensionsMut, ExtensionType, StateWithExtensionsMut,
};
use anchor_spl::token_2022::spl_token_2022::state::Mint;
use anchor_spl::token_interface::spl_token_metadata_interface::state::TokenMetadata;
use solana_programs::collection::MintState;
use solana_programs::errors::{ConstraintError, MarketplaceError, MetadataErrors};
use solana_programs::keys::Address;
use solana_programs::marketplace::buy::{buy_nft, try_buy_nft, BuyError, BuyNft, Purchase};
use solana_programs::marketplace::distribution::{Creator, DistributionAccount, DISTRIBUTION_NO_CREATORS_SPACE};
use solana_programs::marketplace::listing::{list_nft, EnforcingAccount, ListNft, ListNftArgs, ListedNftPda};
use solana_programs::marketplace::royalties::{
    add_royalties, calculate_royalties, creators_from_entries, royalty_basis_points_in, royalty_from_entries,
    royalty_metadata_fields, try_calculate_royalties, try_creators_from_entries, AddRoyalties, AddRoyaltiesError,
    CreatorWithShare, UpdateRoyaltiesArgs,
};
use solana_programs::spl::get_metadata;

fn addr(b: u8) -> Address {
    Address::new([b; 32])
}

fn text(a: &Address) -> String {
    Pubkey::new_from_array(a.bytes).to_string()
}

fn pairs(entries: &[(&str, &str)]) -> Vec<(String, String)> {
    entries.iter().map(|(k, v)| (k.to_string(), v.to_string())).collect()
}

/// The data of an initialised token-2022 mint whose metadata extension holds
/// `additional` as its additional key/value pairs.
fn mint_data_with(additional: Vec<(String, String)>) -> Vec<u8> {
    let metadata = TokenMetadata { name: "Art".to_string(), additional_metadata: additional, ..Default::default() };
    let base = ExtensionType::try_calculate_account_len::<Mint>(&[ExtensionType::MetadataPointer]).unwrap();
    let mut data = vec![0u8; base + metadata.tlv_size_of().unwrap()];
    let mut state = StateWithExtensionsMut::<Mint>::unpack_uninitialized(&mut data).unwrap();
    state.base = Mint { supply: 1, decimals: 0, is_initialized: true, ..Default::default() };
    state.pack_base();
    state.init_account_type().unwrap();
    state.init_variable_len_extension(&metadata, false).unwrap();
    data
}

#[test]
fn metadata_is_read_from_mint_data() {
    let entries = pairs(&[("royalty_basis_points", "500"), ("color", "red")]);
    let data = mint_data_with(entries.clone());
    assert_eq!(get_metadata(&data).unwrap(), entries);
    assert!(get_metadata(&data[..50]).is_err());
}

#[test]
fn royalties_follow_the_stored_rate() {
    let data = mint_data_with(pairs(&[("a", "b"), ("royalty_basis_points", "250")]));
    assert_eq!(calculate_royalties(&data, 10_000).unwrap(), 250);
    assert_eq!(calculate_royalties(&data, 399).unwrap(), 9);
    let none = mint_data_with(pairs(&[("a", "b")]));
    assert_eq!(calculate_royalties(&none, 10_000).unwrap(), 0);
    assert!(calculate_royalties(&[0u8; 10], 1).is_err());
    assert!(matches!(try_calculate_royalties(&data, 1_000), Some(Ok(25))));
    let unreadable = mint_data_with(pairs(&[("royalty_basis_points", "five")]));
    assert!(try_calculate_royalties(&unreadable, 1_000).is_none());
    assert!(try_calculate_royalties(&data, u64::MAX).is_none());
    assert!(matches!(try_calculate_royalties(&[1u8; 3], 1), Some(Err(_))));
}

#[test]
fn first_rate_entry_counts() {
    let entries = pairs(&[("royalty_basis_points", "100"), ("royalty_basis_points", "x")]);
    assert_eq!(royalty_basis_points_in(&entries), Some(100));
    assert_eq!(royalty_from_entries(&entries, 1_000), 10);
    assert_eq!(royalty_basis_points_in(&pairs(&[("royalty_basis_points", "+0")])), Some(0));
    assert_eq!(royalty_basis_points_in(&pairs(&[("royalty_basis_points", "-1")])), None);
}

#[test]
fn creators_are_read_from_address_keys() {
    let (a, b) = (addr(7), addr(8));
    let entries = vec![
        ("royalty_basis_points".to_string(), "300".to_string()),
        (text(&a), "60".to_string()),
        ("not an address".to_string(), "x".to_string()),
        (text(&b), "40".to_string()),
    ];
    let expected = vec![CreatorWithShare { address: a, share: 60 }, CreatorWithShare { address: b, share: 40 }];
    assert_eq!(creators_from_entries(&entries), expected);
    assert_eq!(try_creators_from_entries(&entries), Some(expected));
    let bad = vec![(text(&a), "600".to_string())];
    assert_eq!(try_creators_from_entries(&bad), None);
}

#[test]
fn royalty_fields_read_back_as_the_terms() {
    let creators = vec![CreatorWithShare { address: addr(1), share: 70 }, CreatorWithShare { address: addr(2), share: 30 }];
    let args = UpdateRoyaltiesArgs { royalty_basis_points: 1_000, creators: creators.clone() };
    let fields = royalty_metadata_fields(&args).unwrap();
    assert_eq!(
        fields,
        vec![
            ("royalty_basis_points".to_string(), "1000".to_string()),
            (text(&addr(1)), "70".to_string()),
            (text(&addr(2)), "30".to_string()),
        ]
    );
    assert_eq!(royalty_basis_points_in(&fields), Some(1_000));
    assert_eq!(creators_from_entries(&fields), creators);
    let data = mint_data_with(fields);
    assert_eq!(calculate_royalties(&data, 5_000).unwrap(), 500);
}

#[test]
fn royalty_terms_are_checked() {
    let one = vec![CreatorWithShare { address: addr(1), share: 100 }];
    let too_high = UpdateRoyaltiesArgs { royalty_basis_points: 10_001, creators: one.clone() };
    assert_eq!(royalty_metadata_fields(&too_high), Err(MetadataErrors::RoyaltyBasisPointsInvalid));
    let full = UpdateRoyaltiesArgs { royalty_basis_points: 10_000, creators: one };
    assert!(royalty_metadata_fields(&full).is_ok());
    let short = UpdateRoyaltiesArgs {
        royalty_basis_points: 5,
        creators: vec![CreatorWithShare { address: addr(1), share: 50 }, CreatorWithShare { address: addr(2), share: 40 }],
    };
    assert_eq!(royalty_metadata_fields(&short), Err(MetadataErrors::CreatorShareInvalid));
    let overflowing = UpdateRoyaltiesArgs {
        royalty_basis_points: 5,
        creators: vec![
            CreatorWithShare { address: addr(1), share: 200 },
            CreatorWithShare { address: addr(2), share: 100 },
            CreatorWithShare { address: addr(3), share: 56 },
        ],
    };
    assert_eq!(royalty_metadata_fields(&overflowing), Err(MetadataErrors::CreatorShareInvalid));
    let none = UpdateRoyaltiesArgs { royalty_basis_points: 5, creators: vec![] };
    assert_eq!(royalty_metadata_fields(&none), Err(MetadataErrors::CreatorShareInvalid));
}

#[test]
fn add_royalties_writes_an_empty_meta_list() {
    assert_eq!(AddRoyalties::extra_account_metas_size().unwrap(), 16);
    assert!(AddRoyalties::account_metas().is_empty());
    let mut accounts = AddRoyalties { extra_metas_account: vec![0u8; 16] };
    let args = UpdateRoyaltiesArgs { royalty_basis_points: 42, creators: vec![CreatorWithShare { address: addr(4), share: 100 }] };
    let fields = add_royalties(&mut accounts, &args).unwrap();
    assert_eq!(fields.len(), 2);
    assert_eq!(&accounts.extra_metas_account[0..8], &[105u8, 37, 101, 197, 75, 251, 102, 26]);
    assert_eq!(&accounts.extra_metas_account[8..16], &[4, 0, 0, 0, 0, 0, 0, 0]);
    let mut untouched = AddRoyalties { extra_metas_account: vec![0u8; 16] };
    let bad = UpdateRoyaltiesArgs { royalty_basis_points: 42, creators: vec![] };
    assert!(matches!(
        add_royalties(&mut untouched, &bad),
        Err(AddRoyaltiesError::Metadata(MetadataErrors::CreatorShareInvalid))
    ));
    assert_eq!(untouched.extra_metas_account, vec![0u8; 16]);
}

#[test]
fn recording_royalty_adds_each_creators_part() {
    let mut account = DistributionAccount { mint: addr(9), creators_claims: vec![Creator { address: addr(1), claim_amount: 5 }] };
    let creators = vec![CreatorWithShare { address: addr(1), share: 60 }, CreatorWithShare { address: addr(2), share: 40 }];
    assert_eq!(account.record_royalty(&creators, 1_000), Ok(Some(DISTRIBUTION_NO_CREATORS_SPACE + 2 * 40)));
    assert_eq!(
        account.creators_claims,
        vec![Creator { address: addr(1), claim_amount: 605 }, Creator { address: addr(2), claim_amount: 400 }]
    );
    assert_eq!(account.record_royalty(&creators, 1_001), Ok(None));
    assert_eq!(
        account.creators_claims,
        vec![Creator { address: addr(1), claim_amount: 1_205 }, Creator { address: addr(2), claim_amount: 800 }]
    );
    assert_eq!(account.record_royalty(&creators, 0), Ok(None));
    assert_eq!(account.creators_claims.len(), 2);
}

#[test]
fn recording_royalty_refuses_overflow_and_changes_nothing() {
    let mut account = DistributionAccount { mint: addr(9), creators_claims: vec![Creator { address: addr(1), claim_amount: u64::MAX }] };
    let before = account.creators_claims.clone();
    let creators = vec![CreatorWithShare { address: addr(2), share: 10 }, CreatorWithShare { address: addr(1), share: 90 }];
    assert_eq!(account.record_royalty(&creators, 1_000), Err(MarketplaceError::ArithmeticError));
    assert_eq!(account.creators_claims, before);
    let huge = vec![CreatorWithShare { address: addr(3), share: 255 }];
    assert_eq!(account.record_royalty(&huge, u64::MAX), Err(MarketplaceError::ArithmeticError));
    account.initialize_account_data(addr(4));
    assert_eq!(account, DistributionAccount { mint: addr(4), creators_claims: vec![] });
}

#[test]
fn listing_records_the_offer() {
    let mut accounts = ListNft {
        seller: addr(1),
        listed_nft_pda: ListedNftPda { bump: 0, price: 0, seller: addr(0), seller_ata: addr(0), mint: addr(0) },
        listed_nft_pda_bump: 253,
        mint: addr(2),
        seller_token_account: addr(3),
    };
    list_nft(&mut accounts, ListNftArgs { price: 77 });
    assert_eq!(
        accounts.listed_nft_pda,
        ListedNftPda { bump: 253, price: 77, seller: addr(1), seller_ata: addr(3), mint: addr(2) }
    );
}

fn sale(metadata: Vec<(String, String)>, price: u64) -> BuyNft {
    BuyNft {
        buyer: addr(20),
        seller: addr(21),
        seller_token_account: addr(22),
        mint: addr(23),
        mint_state: MintState { has_mint_authority: false, decimals: 0, supply: 1 },
        mint_data: mint_data_with(metadata),
        listed_nft_pda: ListedNftPda { bump: 1, price, seller: addr(21), seller_ata: addr(22), mint: addr(23) },
        enforcing_account: EnforcingAccount { slot: 0 },
        distribution_account: DistributionAccount { mint: addr(23), creators_claims: vec![] },
    }
}

#[test]
fn buying_splits_the_price_and_records_claims() {
    let (a, b) = (addr(30), addr(31));
    let mut accounts = sale(
        vec![
            ("royalty_basis_points".to_string(), "500".to_string()),
            (text(&a), "60".to_string()),
            (text(&b), "40".to_string()),
        ],
        1_000,
    );
    let purchase = buy_nft(&mut accounts, 88).unwrap();
    assert_eq!(purchase, Purchase { royalty_amount: 50, payment_amount: 950, distribution_realloc: Some(124) });
    assert_eq!(
        accounts.distribution_account.creators_claims,
        vec![Creator { address: a, claim_amount: 30 }, Creator { address: b, claim_amount: 20 }]
    );
    assert_eq!(accounts.enforcing_account.slot, 88);
}

#[test]
fn buying_without_royalty_pays_the_whole_price() {
    let mut accounts = sale(vec![("x".to_string(), "y".to_string())], 700);
    let purchase = buy_nft(&mut accounts, 3).unwrap();
    assert_eq!(purchase, Purchase { royalty_amount: 0, payment_amount: 700, distribution_realloc: None });
    assert!(accounts.distribution_account.creators_claims.is_empty());
}

#[test]
fn buying_checks_the_listing_and_the_rate() {
    let mut wrong_seller = sale(vec![], 10);
    wrong_seller.seller = addr(99);
    assert!(matches!(buy_nft(&mut wrong_seller, 1), Err(BuyError::Constraint(ConstraintError::ConstraintRaw))));
    let mut not_nft = sale(vec![], 10);
    not_nft.mint_state.supply = 2;
    assert!(matches!(buy_nft(&mut not_nft, 1), Err(BuyError::Constraint(ConstraintError::ConstraintRaw))));
    let mut too_much = sale(vec![("royalty_basis_points".to_string(), "20000".to_string())], 10);
    assert!(matches!(buy_nft(&mut too_much, 1), Err(BuyError::Marketplace(MarketplaceError::ArithmeticError))));
    assert_eq!(too_much.enforcing_account.slot, 0);
    let mut broken = sale(vec![], 10);
    broken.mint_data = vec![0u8; 40];
    assert!(matches!(buy_nft(&mut broken, 1), Err(BuyError::Program(_))));
}

#[test]
fn try_buying_reports_aborting_sales() {
    let a = addr(40);
    let mut bad_share = sale(
        vec![("royalty_basis_points".to_string(), "100".to_string()), (text(&a), "lots".to_string())],
        1_000,
    );
    assert!(try_buy_nft(&mut bad_share, 5).is_none());
    assert_eq!(bad_share.enforcing_account.slot, 0);
    let mut fine = sale(vec![("royalty_basis_points".to_string(), "100".to_string()), (text(&a), "100".to_string())], 1_000);
    assert!(matches!(try_buy_nft(&mut fine, 5), Some(Ok(Purchase { royalty_amount: 10, payment_amount: 990, .. }))));
    assert_eq!(fine.enforcing_account.slot, 5);
}

#[test]
fn recorded_parts_stay_within_the_royalty() {
    let mut account = DistributionAccount { mint: addr(9), creators_claims: vec![] };
    let creators = vec![
        CreatorWithShare { address: addr(1), share: 33 },
        CreatorWithShare { address: addr(2), share: 33 },
        CreatorWithShare { address: addr(3), share: 34 },
    ];
    assert_eq!(account.record_royalty(&creators, 10), Ok(Some(DISTRIBUTION_NO_CREATORS_SPACE + 3 * 40)));
    let total: u64 = account.creators_claims.iter().map(|c| c.claim_amount).sum();
    assert_eq!(total, 9);
    assert_eq!(account.record_royalty(&creators, 100), Ok(None));
    let total: u64 = account.creators_claims.iter().map(|c| c.claim_amount).sum();
    assert_eq!(total, 109);
}

#[test]
fn a_creator_named_twice_keeps_one_claim() {
    let mut account = DistributionAccount { mint: addr(9), creators_claims: vec![] };
    let creators = vec![CreatorWithShare { address: addr(1), share: 50 }, CreatorWithShare { address: addr(1), share: 50 }];
    assert_eq!(account.record_royalty(&creators, 200), Ok(Some(DISTRIBUTION_NO_CREATORS_SPACE + 40)));
    assert_eq!(account.creators_claims, vec![Creator { address: addr(1), claim_amount: 200 }]);
}

#[test]
fn empty_meta_list_needs_sixteen_bytes() {
    let mut short = AddRoyalties { extra_metas_account: vec![0u8; 15] };
    assert!(short.init_account_metas().is_err());
    let mut exact = AddRoyalties { extra_metas_account: vec![0u8; 16] };
    assert!(exact.init_account_metas().is_ok());
}

#[test]
fn add_royalties_needs_room_for_the_meta_list() {
    let args = UpdateRoyaltiesArgs { royalty_basis_points: 10000, creators: vec![CreatorWithShare { address: addr(4), share: 100 }] };
    let mut short = AddRoyalties { extra_metas_account: vec![0u8; 15] };
    assert!(matches!(add_royalties(&mut short, &args), Err(AddRoyaltiesError::Program(_))));
    let mut roomy = AddRoyalties { extra_metas_account: vec![0u8; 20] };
    assert!(add_royalties(&mut roomy, &args).is_ok());
}
