use solana_programs::counter::{
    create_counter, decrement_counter, increment_counter, Counter, CreateCounter, UpdateCounter,
};
use solana_programs::decimal::{decimal_string, parse_u64, parse_u8};
use solana_programs::dex::{create_pool, liquidity_pool_seed_prefix, CreatePool, Exchange, FundPool, LiquidityPool, ASSET_SPACE, LIQUIDITY_POOL_SPACE};
use solana_programs::errors::{ConstraintError, ExchangeError, MarketplaceError, MetadataErrors, MintErrors};
use solana_programs::keys::Address;
use solana_programs::rent::minimum_balance_top_up;

fn addr(b: u8) -> Address {
    Address::new([b; 32])
}

#[test]
fn counter_starts_at_zero_for_its_creator() {
    let mut accounts = CreateCounter { user: addr(1), counter: Counter { user: addr(9), count: 7 } };
    create_counter(&mut accounts);
    assert_eq!(accounts.counter, Counter { user: addr(1), count: 0 });
}

#[test]
fn counter_increment_then_decrement_restores_it() {
    let mut accounts = UpdateCounter { user: addr(1), counter: Counter { user: addr(1), count: 41 } };
    assert_eq!(increment_counter(&mut accounts), Ok(()));
    assert_eq!(accounts.counter.count, 42);
    assert_eq!(decrement_counter(&mut accounts), Ok(()));
    assert_eq!(accounts.counter, Counter { user: addr(1), count: 41 });
}

#[test]
fn counter_refuses_another_signer() {
    let mut accounts = UpdateCounter { user: addr(2), counter: Counter { user: addr(1), count: 3 } };
    assert_eq!(increment_counter(&mut accounts), Err(ConstraintError::ConstraintHasOne));
    assert_eq!(decrement_counter(&mut accounts), Err(ConstraintError::ConstraintHasOne));
    assert_eq!(accounts.counter.count, 3);
}

#[test]
fn decimal_reading_follows_from_str() {
    for text in ["0", "7", "+7", "255", "256", "", "+", "-1", "12a", "007", " 1", "+-1", "٣"] {
        assert_eq!(parse_u8(text), text.parse::<u8>().ok(), "text {:?}", text);
        assert_eq!(parse_u64(text), text.parse::<u64>().ok(), "text {:?}", text);
    }
    for text in ["18446744073709551615", "18446744073709551616", "99999999999999999999", "+18446744073709551615"] {
        assert_eq!(parse_u64(text), text.parse::<u64>().ok(), "text {:?}", text);
    }
    assert_eq!(parse_u8("255"), Some(255));
    assert_eq!(parse_u8("256"), None);
    assert_eq!(parse_u64("+500"), Some(500));
}

#[test]
fn decimal_writing_follows_to_string() {
    for n in [0u64, 5, 10, 99, 100, 10000, 123456789, u64::MAX] {
        assert_eq!(decimal_string(n), n.to_string());
        assert_eq!(parse_u64(&decimal_string(n)), Some(n));
    }
}

#[test]
fn addresses_compare_by_bytes() {
    let mut other = [3u8; 32];
    assert!(addr(3).same_as(&Address::new(other)));
    other[31] = 4;
    assert!(!addr(3).same_as(&Address::new(other)));
}

#[test]
fn top_up_reaches_the_minimum_balance() {
    assert_eq!(minimum_balance_top_up(1_000, 400), Some(600));
    assert_eq!(minimum_balance_top_up(1_000, 1_000), None);
    assert_eq!(minimum_balance_top_up(1_000, 5_000), None);
}

#[test]
fn pool_adds_each_asset_once() {
    let mut accounts = CreatePool { pool: LiquidityPool { assets: vec![addr(1)], bump: 0 }, pool_bump: 254 };
    create_pool(&mut accounts);
    assert_eq!(accounts.pool, LiquidityPool::new(254));
    assert_eq!(LIQUIDITY_POOL_SPACE, 13);
    let mut fund = FundPool { signer: addr(9), mint: addr(5), pool: accounts.pool };
    assert_eq!(fund.add_asset(), Some(ASSET_SPACE));
    assert_eq!(fund.add_asset(), None);
    fund.mint = addr(6);
    assert_eq!(fund.add_asset(), Some(32));
    assert_eq!(fund.pool.assets, vec![addr(5), addr(6)]);
    assert_eq!(FundPool::new_data_len(13, 32), 45);
    assert_eq!(FundPool::additional_rent(1_500, 1_200), 300);
}

#[test]
fn exchange_needs_both_assets_in_the_pool() {
    let pool = LiquidityPool { assets: vec![addr(5), addr(6)], bump: 1 };
    let ok = Exchange { mint_base: addr(6), mint_quote: addr(5), pool: pool.clone() };
    assert_eq!(ok.check_assets_exist(), Ok(()));
    let missing = Exchange { mint_base: addr(6), mint_quote: addr(7), pool };
    assert_eq!(missing.check_assets_exist(), Err(ExchangeError::InvalidAssetKey));
}

#[test]
fn error_messages_match_the_programs() {
    assert_eq!(MetadataErrors::CreatorShareInvalid.message(), "Creators shares must add up to 100.");
    assert_eq!(
        MetadataErrors::RoyaltyBasisPointsInvalid.message(),
        "Royalty basis points must be less than or equal to 10000."
    );
    assert_eq!(MintErrors::InvalidTokenGroupMemberMint.message(), "Invalid Token group member mint");
    assert_eq!(MarketplaceError::RequireMarketplaceProgram.message(), "Only Marketplace program can enforce royalties");
}

#[test]
fn pool_seed_is_its_name() {
    assert_eq!(liquidity_pool_seed_prefix(), "liquidity_pool");
}

#[test]
fn funded_pool_size_follows_its_assets() {
    let mut fund = FundPool { signer: addr(9), mint: addr(1), pool: LiquidityPool::new(7) };
    let mut data_len = LIQUIDITY_POOL_SPACE;
    for m in [1u8, 2, 1, 3, 2, 3, 4] {
        fund.mint = addr(m);
        if let Some(space) = fund.add_asset() {
            data_len = FundPool::new_data_len(data_len, space);
        }
        assert_eq!(data_len, LIQUIDITY_POOL_SPACE + ASSET_SPACE * fund.pool.assets.len());
    }
    assert_eq!(fund.pool.assets, vec![addr(1), addr(2), addr(3), addr(4)]);
}
