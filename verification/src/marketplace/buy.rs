//! Buying a listed NFT: the royalty is split off the price and recorded for
//! the creators, the rest goes to the seller, and the transfer hook is told
//! that this slot's transfer is approved.
use anchor_lang::solana_program::program_error::ProgramError;
use vstd::prelude::*;

use crate::collection::MintState;
use crate::errors::{ConstraintError, MarketplaceError};
use crate::keys::Address;
use crate::marketplace::distribution::{
    claimants_distinct, claims_view, distribution_space, lemma_record_keeps_claimants_distinct, lemma_record_keeps_claims,
    record_creators, sizes_fit, Claims, DistributionAccount,
};
use crate::marketplace::listing::{EnforcingAccount, ListedNftPda};
use crate::marketplace::royalties::{
    calculate_royalties, creators_from_entries, creators_of, first_value_for, royalty_computable, royalty_fields,
    royalty_fields_outcome, royalty_for, royalty_key, royalty_of, shares_readable, try_calculate_royalties,
    try_creators_from_entries, Entries,
};
use crate::decimal::{decimal_text, lemma_decimal_round_trip};
use crate::spl::{get_metadata, mint_additional_metadata};

verus! {

/// Accounts of `buy_nft`, with the state the sale reads and changes.
#[derive(Debug, PartialEq, Eq)]
pub struct BuyNft {
    pub buyer: Address,
    pub seller: Address,
    pub seller_token_account: Address,
    pub mint: Address,
    pub mint_state: MintState,
    /// The data of the mint account, which holds its token metadata.
    pub mint_data: Vec<u8>,
    pub listed_nft_pda: ListedNftPda,
    pub enforcing_account: EnforcingAccount,
    pub distribution_account: DistributionAccount,
}

/// An error of a sale.
#[derive(Debug)]
pub enum BuyError {
    Constraint(ConstraintError),
    Program(ProgramError),
    Marketplace(MarketplaceError),
}

/// What a sale leaves for the runtime to carry out: the royalty to move to
/// the distribution account, the payment to the seller, and the new data
/// size of the distribution account when it gained claims.
#[derive(Clone, Copy, Debug, PartialEq, Eq)]
pub struct Purchase {
    pub royalty_amount: u64,
    pub payment_amount: u64,
    pub distribution_realloc: Option<usize>,
}

/// Whether the accounts meet the declared constraints of a sale: the listing
/// is that of this mint, seller and token account, and the mint is a
/// finished NFT.
pub open spec fn buy_constraints_hold(a: BuyNft) -> bool {
    &&& a.mint@ == a.listed_nft_pda.mint@
    &&& a.seller@ == a.listed_nft_pda.seller@
    &&& a.seller_token_account@ == a.listed_nft_pda.seller_ata@
    &&& !a.mint_state.has_mint_authority
    &&& a.mint_state.decimals == 0
    &&& a.mint_state.supply == 1
}

/// Whether recording `royalty` for the creators that `es` names completes
/// without aborting: their shares read as `u8`s and the account sizes fit.
pub open spec fn distribution_decided(es: Entries, claims_len: nat, royalty: nat) -> bool {
    royalty != 0 ==> shares_readable(es) && sizes_fit(claims_len, creators_of(es).unwrap().len())
}

/// The realloc that recording a royalty asks for, given the claims before and
/// after.
pub open spec fn realloc_for(before_len: nat, after: Seq<(Seq<u8>, u64)>) -> Option<usize> {
    if after.len() > before_len {
        Some(distribution_space(after.len()) as usize)
    } else {
        None
    }
}

impl BuyNft {
    /// Checks the declared constraints of the sale.
    pub fn check_constraints(&self) -> (r: Result<(), ConstraintError>)
        ensures
            r is Ok <==> buy_constraints_hold(*self),
            r matches Err(e) ==> e == ConstraintError::ConstraintRaw,
    {
        let listing = &self.listed_nft_pda;
        if !(self.mint.same_as(&listing.mint) && self.seller.same_as(&listing.seller)
            && self.seller_token_account.same_as(&listing.seller_ata)) {
            return Err(ConstraintError::ConstraintRaw);
        }
        if !self.mint_state.is_closed_single_nft() {
            return Err(ConstraintError::ConstraintRaw);
        }
        Ok(())
    }

    /// Marks `slot` as the slot whose transfer of the NFT is approved.
    pub fn set_enforcement(&mut self, slot: u64)
        ensures
            final(self).enforcing_account.slot == slot,
            final(self).buyer == old(self).buyer,
            final(self).seller == old(self).seller,
            final(self).seller_token_account == old(self).seller_token_account,
            final(self).mint == old(self).mint,
            final(self).mint_state == old(self).mint_state,
            final(self).mint_data == old(self).mint_data,
            final(self).listed_nft_pda == old(self).listed_nft_pda,
            final(self).distribution_account == old(self).distribution_account,
    {
        self.enforcing_account.slot = slot;
    }

    /// Records each creator's part of `royalty_amount` in the distribution
    /// account, the creators and shares being read from the mint's metadata,
    /// and gives the account's new data size when it gained claims.
    ///
    /// Unreadable metadata is an error even for a zero royalty; a zero
    /// royalty then changes nothing.  On any error nothing changes.
    pub fn distribute_royalty(&mut self, royalty_amount: u64) -> (r: Result<Option<usize>, BuyError>)
        requires
            distribute_decided(*old(self), royalty_amount as nat),
        ensures
            distributed(*old(self), *final(self), royalty_amount as nat, r),
    {
        let metadata = match get_metadata(self.mint_data.as_slice()) {
            Ok(m) => m,
            Err(e) => return Err(BuyError::Program(e)),
        };
        if royalty_amount == 0 {
            return Ok(None);
        }
        let creators = creators_from_entries(&metadata);
        match self.distribution_account.record_royalty(&creators, royalty_amount) {
            Ok(realloc) => Ok(realloc),
            Err(e) => Err(BuyError::Marketplace(e)),
        }
    }

    /// As `distribute_royalty`, but first tests whether it completes: none
    /// where a creator's share in the metadata does not read as a `u8` (or
    /// the account size would not fit a `usize`), in which cases recording
    /// the royalty aborts.
    pub fn try_distribute_royalty(&mut self, royalty_amount: u64) -> (r: Option<Result<Option<usize>, BuyError>>)
        ensures
            r is None <==> !distribute_decided(*old(self), royalty_amount as nat),
            r is None ==> *final(self) == *old(self),
            r matches Some(res) ==> distributed(*old(self), *final(self), royalty_amount as nat, res),
    {
        let metadata = match get_metadata(self.mint_data.as_slice()) {
            Ok(m) => m,
            Err(_) => return Some(self.distribute_royalty(royalty_amount)),
        };
        if royalty_amount == 0 {
            return Some(self.distribute_royalty(royalty_amount));
        }
        match try_creators_from_entries(&metadata) {
            None => None,
            Some(creators) => {
                if !counts_fit(self.distribution_account.creators_claims.len(), creators.len()) {
                    return None;
                }
                Some(self.distribute_royalty(royalty_amount))
            },
        }
    }
}

/// Whether recording a royalty for the mint's creators completes without
/// aborting.
pub open spec fn distribute_decided(a: BuyNft, royalty: nat) -> bool {
    mint_additional_metadata(a.mint_data@) matches Some(es) ==> distribution_decided(
        es,
        a.distribution_account.creators_claims@.len() as nat,
        royalty,
    )
}

/// Whether `new` and `r` are what recording `royalty` for the creators in the
/// metadata of `old`'s mint gives: the distribution account's claims and the
/// realloc as `record_creators` says, on any error no change, and nothing
/// else changed.
pub open spec fn distributed(old: BuyNft, new: BuyNft, royalty: nat, r: Result<Option<usize>, BuyError>) -> bool {
    let unchanged = new.distribution_account == old.distribution_account;
    &&& new.buyer == old.buyer
    &&& new.seller == old.seller
    &&& new.seller_token_account == old.seller_token_account
    &&& new.mint == old.mint
    &&& new.mint_state == old.mint_state
    &&& new.mint_data == old.mint_data
    &&& new.listed_nft_pda == old.listed_nft_pda
    &&& new.enforcing_account == old.enforcing_account
    &&& new.distribution_account.mint == old.distribution_account.mint
    &&& match mint_additional_metadata(old.mint_data@) {
        None => r matches Err(BuyError::Program(_)) && unchanged,
        Some(es) => if royalty == 0 {
            r matches Ok(None) && unchanged
        } else {
            match record_creators(claims_view(old.distribution_account.creators_claims@), creators_of(es).unwrap(), royalty) {
                None => r matches Err(BuyError::Marketplace(MarketplaceError::ArithmeticError)) && unchanged,
                Some(c) => {
                    &&& claims_view(new.distribution_account.creators_claims@) == c
                    &&& r matches Ok(realloc) && realloc == realloc_for(
                        old.distribution_account.creators_claims@.len() as nat,
                        c,
                    )
                },
            }
        },
    }
}

/// Whether `claims` claims and `creators` more creators keep the account
/// size within a `usize`.
fn counts_fit(claims: usize, creators: usize) -> (r: bool)
    ensures
        r == sizes_fit(claims as nat, creators as nat),
{
    let bound: usize = (usize::MAX - 44) / 40;
    let r = claims <= bound && creators <= bound - claims;
    proof {
        let n = claims as nat + creators as nat;
        if r {
            assert(44 + n * 40 <= usize::MAX) by (nonlinear_arith)
                requires
                    n <= bound,
                    bound == (usize::MAX - 44) / 40,
            ;
        } else {
            assert(44 + n * 40 > usize::MAX) by (nonlinear_arith)
                requires
                    n > bound,
                    bound == (usize::MAX - 44) / 40,
            ;
        }
    }
    r
}

/// Whether a sale completes without aborting: once the constraints hold and
/// the metadata reads, the royalty on the price can be computed and, when it
/// does not exceed the price, recorded.
pub open spec fn purchase_decided(a: BuyNft) -> bool {
    buy_constraints_hold(a) ==> (mint_additional_metadata(a.mint_data@) matches Some(es) ==> {
        &&& royalty_computable(es, a.listed_nft_pda.price as nat)
        &&& royalty_for(es, a.listed_nft_pda.price as nat) <= a.listed_nft_pda.price ==> distribution_decided(
            es,
            a.distribution_account.creators_claims@.len() as nat,
            royalty_for(es, a.listed_nft_pda.price as nat),
        )
    })
}

/// Whether `new` and `r` are what a sale at `slot` gives from `old`.
///
/// The royalty is the metadata's rate applied to the listed price; the rest
/// of the price is the seller's payment; the royalty is recorded for the
/// creators; the enforcing account takes the slot.  On any error nothing
/// changes.
pub open spec fn purchased(old: BuyNft, new: BuyNft, slot: u64, r: Result<Purchase, BuyError>) -> bool {
    let price = old.listed_nft_pda.price as nat;
    let others_kept = {
        &&& new.buyer == old.buyer
        &&& new.seller == old.seller
        &&& new.seller_token_account == old.seller_token_account
        &&& new.mint == old.mint
        &&& new.mint_state == old.mint_state
        &&& new.mint_data == old.mint_data
        &&& new.listed_nft_pda == old.listed_nft_pda
        &&& new.distribution_account.mint == old.distribution_account.mint
    };
    if !buy_constraints_hold(old) {
        r matches Err(BuyError::Constraint(ConstraintError::ConstraintRaw)) && new == old
    } else {
        match mint_additional_metadata(old.mint_data@) {
            None => r matches Err(BuyError::Program(_)) && new == old,
            Some(es) => {
                let royalty = royalty_for(es, price);
                if royalty > price {
                    r matches Err(BuyError::Marketplace(MarketplaceError::ArithmeticError)) && new == old
                } else if royalty == 0 {
                    &&& r == Ok::<Purchase, BuyError>(Purchase { royalty_amount: 0, payment_amount: price as u64, distribution_realloc: None })
                    &&& new.distribution_account == old.distribution_account
                    &&& new.enforcing_account.slot == slot
                    &&& others_kept
                } else {
                    match record_creators(claims_view(old.distribution_account.creators_claims@), creators_of(es).unwrap(), royalty) {
                        None => r matches Err(BuyError::Marketplace(MarketplaceError::ArithmeticError)) && new == old,
                        Some(c) => {
                            &&& r == Ok::<Purchase, BuyError>(Purchase {
                                royalty_amount: royalty as u64,
                                payment_amount: (price - royalty) as u64,
                                distribution_realloc: realloc_for(old.distribution_account.creators_claims@.len() as nat, c),
                            })
                            &&& claims_view(new.distribution_account.creators_claims@) == c
                            &&& new.enforcing_account.slot == slot
                            &&& others_kept
                        },
                    }
                }
            },
        }
    }
}

/// The decisions of a sale at `slot`: checks the accounts, splits the listed
/// price into royalty and payment, records the royalty for the creators and
/// approves this slot's transfer, leaving the transfers of lamports and of
/// the NFT, and the closing of the listing, to the runtime.
pub fn buy_nft(accounts: &mut BuyNft, slot: u64) -> (r: Result<Purchase, BuyError>)
    requires
        purchase_decided(*old(accounts)),
    ensures
        purchased(*old(accounts), *final(accounts), slot, r),
        r matches Ok(p) ==> p.royalty_amount + p.payment_amount == old(accounts).listed_nft_pda.price,
{
    match accounts.check_constraints() {
        Ok(()) => {},
        Err(e) => return Err(BuyError::Constraint(e)),
    }
    let selling_price = accounts.listed_nft_pda.price;
    let royalty_amount = match calculate_royalties(accounts.mint_data.as_slice(), selling_price) {
        Ok(v) => v,
        Err(e) => return Err(BuyError::Program(e)),
    };
    let payment_amount = match selling_price.checked_sub(royalty_amount) {
        Some(p) => p,
        None => return Err(BuyError::Marketplace(MarketplaceError::ArithmeticError)),
    };
    let distribution_realloc = match accounts.distribute_royalty(royalty_amount) {
        Ok(realloc) => realloc,
        Err(e) => return Err(e),
    };
    accounts.set_enforcement(slot);
    Ok(Purchase { royalty_amount, payment_amount, distribution_realloc })
}

/// As `buy_nft`, but first tests whether it completes: none where the stored
/// rate or a creator's share does not read, or an amount overflows a `u64`
/// (or an account size a `usize`), in which cases the sale aborts.
pub fn try_buy_nft(accounts: &mut BuyNft, slot: u64) -> (r: Option<Result<Purchase, BuyError>>)
    ensures
        r is None <==> !purchase_decided(*old(accounts)),
        r is None ==> *final(accounts) == *old(accounts),
        r matches Some(res) ==> purchased(*old(accounts), *final(accounts), slot, res),
{
    if accounts.check_constraints().is_err() {
        return Some(buy_nft(accounts, slot));
    }
    let selling_price = accounts.listed_nft_pda.price;
    let metadata = match get_metadata(accounts.mint_data.as_slice()) {
        Ok(m) => m,
        Err(_) => return Some(buy_nft(accounts, slot)),
    };
    let royalty_amount = match try_calculate_royalties(accounts.mint_data.as_slice(), selling_price) {
        None => return None,
        Some(Ok(v)) => v,
        Some(Err(_)) => return Some(buy_nft(accounts, slot)),
    };
    if royalty_amount > selling_price || royalty_amount == 0 {
        return Some(buy_nft(accounts, slot));
    }
    match try_creators_from_entries(&metadata) {
        None => None,
        Some(creators) => {
            if !counts_fit(accounts.distribution_account.creators_claims.len(), creators.len()) {
                return None;
            }
            Some(buy_nft(accounts, slot))
        },
    }
}

/// The royalty at a rate of at most 10000 basis points never exceeds the
/// amount it is taken from.
pub proof fn lemma_royalty_within_amount(amount: nat, basis_points: nat)
    requires
        basis_points <= 10000,
    ensures
        royalty_of(amount, basis_points) <= amount,
{
    assert(amount * basis_points <= amount * 10000) by (nonlinear_arith)
        requires
            basis_points <= 10000,
    ;
    assert(amount * basis_points / 10000 <= amount) by (nonlinear_arith)
        requires
            amount * basis_points <= amount * 10000,
    ;
}

/// A sale of an NFT whose metadata holds the fields that `add_royalties`
/// writes never splits off more royalty than the price: the royalty is the
/// price at the stored rate, which is at most 10000 basis points.
pub proof fn lemma_stored_rate_splits_price(basis_points: nat, creators: Seq<(Seq<u8>, u8)>, price: nat)
    requires
        royalty_fields_outcome(basis_points, creators) is Ok,
        price * basis_points <= u64::MAX,
    ensures
        royalty_computable(royalty_fields(basis_points, creators), price),
        royalty_for(royalty_fields(basis_points, creators), price) == royalty_of(price, basis_points),
        royalty_for(royalty_fields(basis_points, creators), price) <= price,
{
    let fields = royalty_fields(basis_points, creators);
    lemma_decimal_round_trip(basis_points, u64::MAX as nat);
    assert(fields[0] == (royalty_key(), decimal_text(basis_points)));
    assert(first_value_for(fields, royalty_key()) == Some(decimal_text(basis_points)));
    lemma_royalty_within_amount(price, basis_points);
}

/// Whether the claims `new` keep every claim of `old` in its place, for the
/// same creator, only appending claims after them.
pub open spec fn claims_extend(old: Claims, new: Claims) -> bool {
    &&& new.len() >= old.len()
    &&& forall|j: int| 0 <= j < old.len() ==> #[trigger] new[j].0 == old[j].0
}

/// Recording a sale's royalty in the distribution account never drops,
/// reorders or duplicates a claimant: when the claimants were distinct, they
/// stay distinct, and the earlier ones keep their places.
pub proof fn lemma_distribution_keeps_claimants(old: BuyNft, new: BuyNft, royalty: nat, r: Result<Option<usize>, BuyError>)
    requires
        distributed(old, new, royalty, r),
        claimants_distinct(claims_view(old.distribution_account.creators_claims@)),
    ensures
        claimants_distinct(claims_view(new.distribution_account.creators_claims@)),
        claims_extend(
            claims_view(old.distribution_account.creators_claims@),
            claims_view(new.distribution_account.creators_claims@),
        ),
{
    let before = claims_view(old.distribution_account.creators_claims@);
    if let Some(es) = mint_additional_metadata(old.mint_data@) {
        if royalty != 0 {
            if let Some(c) = record_creators(before, creators_of(es).unwrap(), royalty) {
                lemma_record_keeps_claims(before, creators_of(es).unwrap(), royalty);
                lemma_record_keeps_claimants_distinct(before, creators_of(es).unwrap(), royalty);
            }
        }
    }
}

/// A sale, successful or not, never drops, reorders or duplicates a
/// claimant of the distribution account.
pub proof fn lemma_sale_keeps_claimants(old: BuyNft, new: BuyNft, slot: u64, r: Result<Purchase, BuyError>)
    requires
        purchased(old, new, slot, r),
        claimants_distinct(claims_view(old.distribution_account.creators_claims@)),
    ensures
        claimants_distinct(claims_view(new.distribution_account.creators_claims@)),
        claims_extend(
            claims_view(old.distribution_account.creators_claims@),
            claims_view(new.distribution_account.creators_claims@),
        ),
{
    let before = claims_view(old.distribution_account.creators_claims@);
    if buy_constraints_hold(old) {
        if let Some(es) = mint_additional_metadata(old.mint_data@) {
            let royalty = royalty_for(es, old.listed_nft_pda.price as nat);
            if royalty <= old.listed_nft_pda.price && royalty != 0 {
                if let Some(c) = record_creators(before, creators_of(es).unwrap(), royalty) {
                    lemma_record_keeps_claims(before, creators_of(es).unwrap(), royalty);
                    lemma_record_keeps_claimants_distinct(before, creators_of(es).unwrap(), royalty);
                }
            }
        }
    }
}

} // verus!
