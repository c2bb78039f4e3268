//! A liquidity pool that holds a set of assets (token mints).
use vstd::prelude::*;

use crate::errors::ExchangeError;
use crate::keys::Address;

verus! {

/// The pool: the mints of its assets, each once, and the bump of its
/// program-derived address.
#[derive(Clone, Debug, PartialEq, Eq)]
pub struct LiquidityPool {
    pub assets: Vec<Address>,
    pub bump: u8,
}

/// The seed of the pool's program-derived address, its only seed.
pub fn liquidity_pool_seed_prefix() -> (r: &'static str)
    ensures
        r@ == "liquidity_pool"@,
{
    "liquidity_pool"
}

/// Account data size of a new pool: an 8-byte discriminator, the 4-byte
/// length of the (empty) asset list and the bump.
pub const LIQUIDITY_POOL_SPACE: usize = 13;

/// Bytes that each further asset takes in the pool's data.
pub const ASSET_SPACE: usize = 32;

/// The assets of a pool, as views.
pub open spec fn assets_view(assets: Seq<Address>) -> Seq<Seq<u8>> {
    assets.map_values(|a: Address| a@)
}

/// Whether no asset occurs twice.
pub open spec fn assets_distinct(assets: Seq<Seq<u8>>) -> bool {
    forall|i: int, j: int| 0 <= i < j < assets.len() ==> assets[i] != assets[j]
}

/// The assets once `mint` is added: unchanged when it is there already,
/// else with `mint` appended.
pub open spec fn with_asset(assets: Seq<Seq<u8>>, mint: Seq<u8>) -> Seq<Seq<u8>> {
    if assets.contains(mint) {
        assets
    } else {
        assets.push(mint)
    }
}

/// Adding an asset the pool holds changes nothing; adding a new one appends
/// it after the others, which keep their places.
pub proof fn lemma_add_asset_appends(assets: Seq<Seq<u8>>, mint: Seq<u8>)
    ensures
        assets.contains(mint) ==> with_asset(assets, mint) == assets,
        !assets.contains(mint) ==> {
            &&& with_asset(assets, mint).len() == assets.len() + 1
            &&& with_asset(assets, mint)[assets.len() as int] == mint
            &&& forall|i: int| 0 <= i < assets.len() ==> with_asset(assets, mint)[i] == assets[i]
        },
{
}

/// Adding an asset twice is adding it once.
pub proof fn lemma_add_asset_idempotent(assets: Seq<Seq<u8>>, mint: Seq<u8>)
    ensures
        with_asset(with_asset(assets, mint), mint) == with_asset(assets, mint),
{
    if !assets.contains(mint) {
        assert(assets.push(mint)[assets.len() as int] == mint);
    }
}

/// Adding an asset keeps the assets distinct, and the asset is then held.
pub proof fn lemma_add_asset_keeps_distinct(assets: Seq<Seq<u8>>, mint: Seq<u8>)
    requires
        assets_distinct(assets),
    ensures
        assets_distinct(with_asset(assets, mint)),
        with_asset(assets, mint).contains(mint),
{
    if !assets.contains(mint) {
        let after = assets.push(mint);
        assert(after[assets.len() as int] == mint);
        assert forall|i: int, j: int| 0 <= i < j < after.len() implies after[i] != after[j] by {
            if j == assets.len() {
                assert(after[i] == assets[i]);
            }
        }
    }
}

/// The data size of a pool account holding `n` assets.
pub open spec fn pool_data_len(n: nat) -> nat {
    (LIQUIDITY_POOL_SPACE + ASSET_SPACE * n) as nat
}

/// The bytes a funding with `mint` adds to the pool's data: those of one
/// asset when the mint is new, none otherwise (what `add_asset` returns).
pub open spec fn space_added(assets: Seq<Seq<u8>>, mint: Seq<u8>) -> nat {
    if assets.contains(mint) {
        0
    } else {
        ASSET_SPACE as nat
    }
}

/// The assets of a new pool after it is funded with `mints`, in order.
pub open spec fn funded_assets(mints: Seq<Seq<u8>>) -> Seq<Seq<u8>>
    decreases mints.len(),
{
    if mints.len() == 0 {
        Seq::empty()
    } else {
        with_asset(funded_assets(mints.drop_last()), mints.last())
    }
}

/// The data size of a new pool after it is funded with `mints`: the size it
/// was created with, grown by each funding's added space.
pub open spec fn funded_data_len(mints: Seq<Seq<u8>>) -> nat
    decreases mints.len(),
{
    if mints.len() == 0 {
        LIQUIDITY_POOL_SPACE as nat
    } else {
        funded_data_len(mints.drop_last()) + space_added(funded_assets(mints.drop_last()), mints.last())
    }
}

/// One funding keeps the pool's layout: its assets stay distinct, the mint
/// is then held, and the data grown by the added space is that of a pool
/// with the new number of assets.
pub proof fn lemma_funding_keeps_pool_layout(assets: Seq<Seq<u8>>, data_len: nat, mint: Seq<u8>)
    requires
        assets_distinct(assets),
        data_len == pool_data_len(assets.len()),
    ensures
        assets_distinct(with_asset(assets, mint)),
        with_asset(assets, mint).contains(mint),
        data_len + space_added(assets, mint) == pool_data_len(with_asset(assets, mint).len()),
{
    lemma_add_asset_keeps_distinct(assets, mint);
}

/// A pool made by `create_pool` and then funded with any mints holds each
/// funded mint exactly once, and its data size is that of a pool with that
/// many assets.
pub proof fn lemma_fundings_keep_pool_layout(mints: Seq<Seq<u8>>)
    ensures
        assets_distinct(funded_assets(mints)),
        forall|i: int| 0 <= i < mints.len() ==> funded_assets(mints).contains(#[trigger] mints[i]),
        funded_data_len(mints) == pool_data_len(funded_assets(mints).len()),
    decreases mints.len(),
{
    if mints.len() > 0 {
        let before = mints.drop_last();
        lemma_fundings_keep_pool_layout(before);
        lemma_funding_keeps_pool_layout(funded_assets(before), funded_data_len(before), mints.last());
        let after = funded_assets(mints);
        assert forall|i: int| 0 <= i < mints.len() implies after.contains(#[trigger] mints[i]) by {
            if i < mints.len() - 1 {
                assert(before[i] == mints[i]);
                assert(funded_assets(before).contains(before[i]));
                let k = choose|k: int| 0 <= k < funded_assets(before).len() && funded_assets(before)[k] == before[i];
                if !funded_assets(before).contains(mints.last()) {
                    assert(after[k] == funded_assets(before)[k]);
                }
            }
        }
    }
}

impl LiquidityPool {
    /// A pool without assets.
    pub fn new(bump: u8) -> (r: LiquidityPool)
        ensures
            r.assets@.len() == 0,
            r.bump == bump,
            assets_distinct(assets_view(r.assets@)),
    {
        LiquidityPool { assets: Vec::new(), bump }
    }

    /// Whether `mint` is one of the pool's assets.
    pub fn contains_asset(&self, mint: &Address) -> (r: bool)
        ensures
            r == assets_view(self.assets@).contains(mint@),
    {
        let ghost av = assets_view(self.assets@);
        let mut i: usize = 0;
        while i < self.assets.len()
            invariant
                i <= self.assets@.len(),
                av == assets_view(self.assets@),
                forall|j: int| 0 <= j < i ==> av[j] != mint@,
            decreases self.assets.len() - i,
        {
            if self.assets[i].same_as(mint) {
                assert(av[i as int] == mint@);
                return true;
            }
            i = i + 1;
        }
        false
    }
}

/// Accounts of `create_pool`: the pool being created and the bump of its address.
#[derive(Clone, Debug, PartialEq, Eq)]
pub struct CreatePool {
    pub pool: LiquidityPool,
    pub pool_bump: u8,
}

/// Sets up the pool, without assets.
pub fn create_pool(accounts: &mut CreatePool)
    ensures
        final(accounts).pool.assets@.len() == 0,
        final(accounts).pool.bump == old(accounts).pool_bump,
        final(accounts).pool_bump == old(accounts).pool_bump,
{
    accounts.pool = LiquidityPool::new(accounts.pool_bump);
}

/// Accounts of `fund_pool`: the funder, the mint of the asset and the pool.
#[derive(Clone, Debug, PartialEq, Eq)]
pub struct FundPool {
    pub signer: Address,
    pub mint: Address,
    pub pool: LiquidityPool,
}

impl FundPool {
    /// Adds the mint to the pool's assets unless it is there already, and
    /// gives the bytes the pool's data must grow by when it was added.
    pub fn add_asset(&mut self) -> (r: Option<usize>)
        ensures
            final(self).signer == old(self).signer,
            final(self).mint == old(self).mint,
            final(self).pool.bump == old(self).pool.bump,
            assets_view(final(self).pool.assets@) == with_asset(assets_view(old(self).pool.assets@), old(self).mint@),
            assets_view(old(self).pool.assets@).contains(old(self).mint@) ==> r is None && *final(self) == *old(self),
            !assets_view(old(self).pool.assets@).contains(old(self).mint@) ==> r == Some(ASSET_SPACE),
    {
        if self.pool.contains_asset(&self.mint) {
            return None;
        }
        let ghost before = assets_view(self.pool.assets@);
        self.pool.assets.push(self.mint);
        proof {
            let after = assets_view(self.pool.assets@);
            assert(after =~= before.push(self.mint@));
        }
        Some(ASSET_SPACE)
    }

    /// The pool's data size once `space_to_add` bytes are added.
    pub fn new_data_len(data_len: usize, space_to_add: usize) -> (r: usize)
        requires
            data_len + space_to_add <= usize::MAX,
        ensures
            r == data_len + space_to_add,
    {
        data_len + space_to_add
    }

    /// The lamports the funder must add so that the pool holds
    /// `lamports_required`.
    pub fn additional_rent(lamports_required: u64, lamports: u64) -> (r: u64)
        requires
            lamports_required >= lamports,
        ensures
            r == lamports_required - lamports,
    {
        lamports_required - lamports
    }
}

/// Accounts of an exchange: the mint bought, the mint paid with, and the pool.
#[derive(Clone, Debug, PartialEq, Eq)]
pub struct Exchange {
    pub mint_base: Address,
    pub mint_quote: Address,
    pub pool: LiquidityPool,
}

impl Exchange {
    /// Checks that the pool holds both assets of the exchange.
    pub fn check_assets_exist(&self) -> (r: Result<(), ExchangeError>)
        ensures
            r is Ok <==> assets_view(self.pool.assets@).contains(self.mint_base@) && assets_view(self.pool.assets@).contains(
                self.mint_quote@,
            ),
            r matches Err(e) ==> e == ExchangeError::InvalidAssetKey,
    {
        if !self.pool.contains_asset(&self.mint_base) {
            return Err(ExchangeError::InvalidAssetKey);
        }
        if !self.pool.contains_asset(&self.mint_quote) {
            return Err(ExchangeError::InvalidAssetKey);
        }
        Ok(())
    }
}

} // verus!
