//! The distribution account of a collection: the royalties each creator may
//! claim.
use vstd::prelude::*;

use crate::errors::MarketplaceError;
use crate::keys::Address;
use crate::marketplace::royalties::{creators_view, CreatorWithShare};

verus! {

/// A creator and the lamports it can claim.
#[derive(Clone, Copy, Debug, PartialEq, Eq)]
pub struct Creator {
    pub address: Address,
    pub claim_amount: u64,
}

impl View for Creator {
    type V = (Seq<u8>, u64);

    open spec fn view(&self) -> (Seq<u8>, u64) {
        (self.address@, self.claim_amount)
    }
}

/// The claims of a distribution account, as views.
pub type Claims = Seq<(Seq<u8>, u64)>;

/// The views of a list of claims.
pub open spec fn claims_view(claims: Seq<Creator>) -> Claims {
    claims.map_values(|c: Creator| c@)
}

/// The distribution account of a mint.
#[derive(Clone, Debug, PartialEq, Eq)]
pub struct DistributionAccount {
    pub mint: Address,
    pub creators_claims: Vec<Creator>,
}

/// Bytes of one `Creator` in account data: a 32-byte address and a `u64`.
pub const CREATOR_INIT_SPACE: usize = 40;

/// Bytes of a `DistributionAccount` with room for one creator: the mint, the
/// 4-byte length of the claims and one claim.
pub const DISTRIBUTION_ACCOUNT_INIT_SPACE: usize = 76;

/// Bytes of a distribution account without any creator, discriminator included.
pub const DISTRIBUTION_NO_CREATORS_SPACE: usize = 44;

/// Bytes of a distribution account with room for one creator, discriminator included.
pub const DISTRIBUTION_ACCOUNT_MIN_LEN: usize = 84;

/// The first index of a claim by `address`.
pub open spec fn claim_index(claims: Claims, address: Seq<u8>) -> Option<int>
    decreases claims.len(),
{
    if claims.len() == 0 {
        None
    } else if claims[0].0 == address {
        Some(0)
    } else {
        match claim_index(claims.drop_first(), address) {
            None => None,
            Some(i) => Some(i + 1),
        }
    }
}

/// The part of `royalty` owed to a creator with `share` percent, or none when
/// `royalty * share` overflows a `u64`.
pub open spec fn share_of(royalty: nat, share: nat) -> Option<nat> {
    if royalty * share <= u64::MAX {
        Some(royalty * share / 100)
    } else {
        None
    }
}

/// The claims after one creator's part of `royalty` is recorded, or none on
/// overflow.  A creator without a claim gets a new claim of its part; the
/// first claim of a creator that has one grows by its part.
pub open spec fn record_creator(claims: Claims, creator: (Seq<u8>, u8), royalty: nat) -> Option<Claims> {
    match share_of(royalty, creator.1 as nat) {
        None => None,
        Some(part) => match claim_index(claims, creator.0) {
            Some(i) => if claims[i].1 + part <= u64::MAX {
                Some(claims.update(i, (claims[i].0, (claims[i].1 + part) as u64)))
            } else {
                None
            },
            None => Some(claims.push((creator.0, part as u64))),
        },
    }
}

/// The claims after every creator's part of `royalty` is recorded in order,
/// or none on overflow.
pub open spec fn record_creators(claims: Claims, creators: Seq<(Seq<u8>, u8)>, royalty: nat) -> Option<Claims>
    decreases creators.len(),
{
    if creators.len() == 0 {
        Some(claims)
    } else {
        match record_creators(claims, creators.drop_last(), royalty) {
            None => None,
            Some(c) => record_creator(c, creators.last(), royalty),
        }
    }
}

/// The account data size a distribution account needs for `n` claims.
pub open spec fn distribution_space(n: nat) -> nat {
    (DISTRIBUTION_NO_CREATORS_SPACE + n * CREATOR_INIT_SPACE) as nat
}

/// Whether the sizes that recording creators may reach fit in a `usize`.
pub open spec fn sizes_fit(claims_len: nat, creators_len: nat) -> bool {
    distribution_space(claims_len + creators_len) <= usize::MAX
}

impl DistributionAccount {
    /// Sets up the account for `mint`, with no claims.
    pub fn initialize_account_data(&mut self, mint: Address)
        ensures
            final(self).mint == mint,
            final(self).creators_claims@.len() == 0,
    {
        self.mint = mint;
        self.creators_claims = Vec::new();
    }

    /// Records each creator's part of `royalty_amount` (its share in percent
    /// of the amount, rounded down) and gives the new data size of the
    /// account when claims were added.
    ///
    /// A royalty of zero changes nothing.  A creator without a claim gets a
    /// new claim of its part; the claim of a creator that has one grows by
    /// its part.  On overflow the account is left unchanged.
    pub fn record_royalty(&mut self, creators: &Vec<CreatorWithShare>, royalty_amount: u64) -> (r: Result<Option<usize>, MarketplaceError>)
        requires
            sizes_fit(old(self).creators_claims@.len() as nat, creators@.len() as nat),
        ensures
            final(self).mint == old(self).mint,
            royalty_amount == 0 ==> r == Ok::<Option<usize>, MarketplaceError>(None) && *final(self) == *old(self),
            royalty_amount != 0 ==> match record_creators(claims_view(old(self).creators_claims@), creators_view(creators@), royalty_amount as nat) {
                None => r == Err::<Option<usize>, MarketplaceError>(MarketplaceError::ArithmeticError) && *final(self) == *old(self),
                Some(c) => {
                    &&& claims_view(final(self).creators_claims@) == c
                    &&& r matches Ok(realloc) && realloc == if c.len() > old(self).creators_claims@.len() {
                        Some(distribution_space(c.len()) as usize)
                    } else {
                        None
                    }
                },
            },
    {
        if royalty_amount == 0 {
            return Ok(None);
        }
        let initial_len = self.creators_claims.len();
        let ghost initial = claims_view(self.creators_claims@);
        let mut claims: Vec<Creator> = Vec::new();
        let mut k: usize = 0;
        while k < initial_len
            invariant
                k <= initial_len == self.creators_claims@.len(),
                *self == *old(self),
                initial == claims_view(self.creators_claims@),
                claims_view(claims@) =~= initial.take(k as int),
            decreases initial_len - k,
        {
            let ghost before = claims@;
            claims.push(self.creators_claims[k]);
            assert(claims_view(claims@) =~= claims_view(before).push(self.creators_claims@[k as int]@));
            assert(initial.take(k + 1) =~= initial.take(k as int).push(initial[k as int]));
            k = k + 1;
        }
        assert(claims_view(claims@) =~= initial);
        let ghost cs = creators_view(creators@);
        let mut i: usize = 0;
        while i < creators.len()
            invariant
                i <= creators@.len(),
                royalty_amount != 0,
                *self == *old(self),
                initial == claims_view(old(self).creators_claims@),
                sizes_fit(initial_len as nat, creators@.len() as nat),
                cs == creators_view(creators@),
                initial.len() == initial_len,
                initial.len() <= claims@.len() <= initial.len() + i,
                record_creators(initial, cs.take(i as int), royalty_amount as nat) == Some(claims_view(claims@)),
            decreases creators.len() - i,
        {
            let creator = creators[i];
            proof {
                assert(cs.take(i + 1).drop_last() =~= cs.take(i as int));
                assert(cs.take(i + 1).last() == creator@);
            }
            let part = match royalty_amount.checked_mul(creator.share as u64) {
                Some(p) => p / 100,
                None => {
                    proof {
                        lemma_record_creators_stays_none(initial, cs, royalty_amount as nat, i + 1);
                    }
                    return Err(MarketplaceError::ArithmeticError);
                },
            };
            match find_claim(&claims, &creator.address) {
                Some(index) => {
                    let claimed = claims[index];
                    match claimed.claim_amount.checked_add(part) {
                        Some(amount) => {
                            let ghost before = claims@;
                            claims.set(index, Creator { address: claimed.address, claim_amount: amount });
                            assert(claims_view(claims@) =~= claims_view(before).update(
                                index as int,
                                (claimed.address@, amount),
                            ));
                        },
                        None => {
                            proof {
                                lemma_record_creators_stays_none(initial, cs, royalty_amount as nat, i + 1);
                            }
                            return Err(MarketplaceError::ArithmeticError);
                        },
                    }
                },
                None => {
                    let ghost before = claims@;
                    claims.push(Creator { address: creator.address, claim_amount: part });
                    assert(claims_view(claims@) =~= claims_view(before).push((creator.address@, part)));
                },
            }
            i = i + 1;
        }
        assert(cs.take(i as int) =~= cs);
        let new_len = claims.len();
        self.creators_claims = claims;
        if new_len <= initial_len {
            return Ok(None);
        }
        Ok(Some(DISTRIBUTION_NO_CREATORS_SPACE + new_len * CREATOR_INIT_SPACE))
    }
}

/// The first index of a claim by `address`.
fn find_claim(claims: &Vec<Creator>, address: &Address) -> (r: Option<usize>)
    ensures
        r matches Some(i) ==> claim_index(claims_view(claims@), address@) == Some(i as int) && i < claims@.len(),
        r is None ==> claim_index(claims_view(claims@), address@) is None,
{
    let ghost cv = claims_view(claims@);
    let mut i: usize = 0;
    while i < claims.len()
        invariant
            i <= claims@.len(),
            cv == claims_view(claims@),
            forall|j: int| 0 <= j < i ==> cv[j].0 != address@,
        decreases claims.len() - i,
    {
        if claims[i].address.same_as(address) {
            proof {
                lemma_claim_index_first(cv, address@, i as int);
            }
            return Some(i);
        }
        i = i + 1;
    }
    proof {
        lemma_claim_index_absent(cv, address@);
    }
    None
}

proof fn lemma_claim_index_first(claims: Claims, address: Seq<u8>, i: int)
    requires
        0 <= i < claims.len(),
        claims[i].0 == address,
        forall|j: int| 0 <= j < i ==> claims[j].0 != address,
    ensures
        claim_index(claims, address) == Some(i),
    decreases i,
{
    if i > 0 {
        lemma_claim_index_first(claims.drop_first(), address, i - 1);
    }
}

proof fn lemma_claim_index_absent(claims: Claims, address: Seq<u8>)
    requires
        forall|j: int| 0 <= j < claims.len() ==> claims[j].0 != address,
    ensures
        claim_index(claims, address) is None,
    decreases claims.len(),
{
    if claims.len() > 0 {
        lemma_claim_index_absent(claims.drop_first(), address);
    }
}

/// The sum of the shares of `creators`, in percent.
pub open spec fn shares_total(creators: Seq<(Seq<u8>, u8)>) -> nat
    decreases creators.len(),
{
    if creators.len() == 0 {
        0
    } else {
        shares_total(creators.drop_last()) + creators.last().1 as nat
    }
}

/// The sum of the amounts of `claims`.
pub open spec fn claims_total(claims: Claims) -> nat
    decreases claims.len(),
{
    if claims.len() == 0 {
        0
    } else {
        claims_total(claims.drop_last()) + claims.last().1 as nat
    }
}

proof fn lemma_claim_index_valid(claims: Claims, address: Seq<u8>)
    requires
        claim_index(claims, address) is Some,
    ensures
        0 <= claim_index(claims, address).unwrap() < claims.len(),
        claims[claim_index(claims, address).unwrap()].0 == address,
    decreases claims.len(),
{
    if claims.len() > 0 && claims[0].0 != address {
        lemma_claim_index_valid(claims.drop_first(), address);
    }
}

proof fn lemma_claims_total_update(claims: Claims, i: int, amount: u64)
    requires
        0 <= i < claims.len(),
    ensures
        claims_total(claims.update(i, (claims[i].0, amount))) + claims[i].1 == claims_total(claims) + amount,
    decreases claims.len(),
{
    let u = claims.update(i, (claims[i].0, amount));
    if i < claims.len() - 1 {
        assert(u.drop_last() =~= claims.drop_last().update(i, (claims[i].0, amount)));
        lemma_claims_total_update(claims.drop_last(), i, amount);
    } else {
        assert(u.drop_last() =~= claims.drop_last());
    }
}

/// Recording a royalty keeps every claim there was in its place, for the same
/// creator and with no smaller amount, and only appends claims after them.
pub proof fn lemma_record_keeps_claims(claims: Claims, creators: Seq<(Seq<u8>, u8)>, royalty: nat)
    requires
        record_creators(claims, creators, royalty) is Some,
    ensures
        record_creators(claims, creators, royalty).unwrap().len() >= claims.len(),
        forall|j: int| 0 <= j < claims.len() ==> {
            &&& #[trigger] record_creators(claims, creators, royalty).unwrap()[j].0 == claims[j].0
            &&& record_creators(claims, creators, royalty).unwrap()[j].1 >= claims[j].1
        },
    decreases creators.len(),
{
    if creators.len() > 0 {
        lemma_record_keeps_claims(claims, creators.drop_last(), royalty);
        let c = record_creators(claims, creators.drop_last(), royalty).unwrap();
        let creator = creators.last();
        if let Some(i) = claim_index(c, creator.0) {
            lemma_claim_index_valid(c, creator.0);
        }
    }
}

/// Whether no creator has two claims.
pub open spec fn claimants_distinct(claims: Claims) -> bool {
    forall|i: int, j: int| 0 <= i < j < claims.len() ==> claims[i].0 != claims[j].0
}

/// Recording a royalty never gives a creator a second claim.
pub proof fn lemma_record_keeps_claimants_distinct(claims: Claims, creators: Seq<(Seq<u8>, u8)>, royalty: nat)
    requires
        record_creators(claims, creators, royalty) is Some,
        claimants_distinct(claims),
    ensures
        claimants_distinct(record_creators(claims, creators, royalty).unwrap()),
    decreases creators.len(),
{
    if creators.len() > 0 {
        lemma_record_keeps_claimants_distinct(claims, creators.drop_last(), royalty);
        let c = record_creators(claims, creators.drop_last(), royalty).unwrap();
        let d = record_creators(claims, creators, royalty).unwrap();
        let creator = creators.last();
        match claim_index(c, creator.0) {
            Some(i) => {
                lemma_claim_index_valid(c, creator.0);
                assert forall|a: int, b: int| 0 <= a < b < d.len() implies d[a].0 != d[b].0 by {
                    assert(d[a].0 == c[a].0 && d[b].0 == c[b].0);
                }
            },
            None => {
                lemma_claim_index_none(c, creator.0);
                assert forall|a: int, b: int| 0 <= a < b < d.len() implies d[a].0 != d[b].0 by {
                    if b == c.len() {
                        assert(d[a].0 == c[a].0);
                    } else {
                        assert(d[a].0 == c[a].0 && d[b].0 == c[b].0);
                    }
                }
            },
        }
    }
}

proof fn lemma_claim_index_none(claims: Claims, address: Seq<u8>)
    requires
        claim_index(claims, address) is None,
    ensures
        forall|j: int| 0 <= j < claims.len() ==> claims[j].0 != address,
    decreases claims.len(),
{
    if claims.len() > 0 {
        lemma_claim_index_none(claims.drop_first(), address);
        assert forall|j: int| 0 <= j < claims.len() implies claims[j].0 != address by {
            if j > 0 {
                assert(claims[j] == claims.drop_first()[j - 1]);
            }
        }
    }
}

proof fn lemma_record_total_scaled(claims: Claims, creators: Seq<(Seq<u8>, u8)>, royalty: nat)
    requires
        record_creators(claims, creators, royalty) is Some,
    ensures
        100 * claims_total(record_creators(claims, creators, royalty).unwrap())
            <= 100 * claims_total(claims) + royalty * shares_total(creators),
    decreases creators.len(),
{
    if creators.len() > 0 {
        let before = creators.drop_last();
        lemma_record_total_scaled(claims, before, royalty);
        let c = record_creators(claims, before, royalty).unwrap();
        let d = record_creators(claims, creators, royalty).unwrap();
        let creator = creators.last();
        let share = creator.1 as nat;
        assert(royalty * shares_total(creators) == royalty * shares_total(before) + royalty * share) by (nonlinear_arith)
            requires
                shares_total(creators) == shares_total(before) + share,
        ;
        assert(royalty * share >= 0) by (nonlinear_arith);
        let part = royalty * share / 100;
        assert(100 * part <= royalty * share) by (nonlinear_arith)
            requires
                part == royalty * share / 100,
        ;
        match claim_index(c, creator.0) {
            Some(i) => {
                lemma_claim_index_valid(c, creator.0);
                lemma_claims_total_update(c, i, (c[i].1 + part) as u64);
            },
            None => {
                assert(d.drop_last() =~= c);
            },
        }
    }
}

/// The parts recorded for a sale never add up to more than its royalty when
/// the creators' shares add up to at most 100 percent.
pub proof fn lemma_recorded_parts_within_royalty(claims: Claims, creators: Seq<(Seq<u8>, u8)>, royalty: nat)
    requires
        record_creators(claims, creators, royalty) is Some,
        shares_total(creators) <= 100,
    ensures
        claims_total(record_creators(claims, creators, royalty).unwrap()) <= claims_total(claims) + royalty,
{
    lemma_record_total_scaled(claims, creators, royalty);
    assert(royalty * shares_total(creators) <= royalty * 100) by (nonlinear_arith)
        requires
            shares_total(creators) <= 100,
    ;
}

proof fn lemma_record_creators_stays_none(claims: Claims, creators: Seq<(Seq<u8>, u8)>, royalty: nat, k: int)
    requires
        0 <= k <= creators.len(),
        record_creators(claims, creators.take(k), royalty) is None,
    ensures
        record_creators(claims, creators, royalty) is None,
    decreases creators.len(),
{
    if k < creators.len() {
        assert(creators.drop_last().take(k) =~= creators.take(k));
        lemma_record_creators_stays_none(claims, creators.drop_last(), royalty, k);
    } else {
        assert(creators.take(k) =~= creators);
    }
}

proof fn lemma_claim_within_total(claims: Claims, i: int)
    requires
        0 <= i < claims.len(),
    ensures
        claims[i].1 <= claims_total(claims),
    decreases claims.len(),
{
    if i < claims.len() - 1 {
        lemma_claim_within_total(claims.drop_last(), i);
    }
}

/// A creator without a claim gets a new claim, appended after the others,
/// of exactly its share of the royalty: `royalty * share / 100`, rounded
/// down, whenever `royalty * share` fits in a `u64`.
pub proof fn lemma_new_creator_claims_its_share(claims: Claims, creator: (Seq<u8>, u8), royalty: nat)
    requires
        forall|j: int| 0 <= j < claims.len() ==> claims[j].0 != creator.0,
        royalty * creator.1 <= u64::MAX,
    ensures
        record_creator(claims, creator, royalty) matches Some(after) && {
            &&& after.len() == claims.len() + 1
            &&& forall|j: int| 0 <= j < claims.len() ==> after[j] == claims[j]
            &&& after[claims.len() as int].0 == creator.0
            &&& 100 * after[claims.len() as int].1 <= royalty * creator.1
            &&& royalty * creator.1 < 100 * (after[claims.len() as int].1 + 1)
        },
{
    lemma_claim_index_absent(claims, creator.0);
    let part = royalty * creator.1 / 100;
    assert(100 * part <= royalty * creator.1 < 100 * (part + 1)) by (nonlinear_arith)
        requires
            part == royalty * creator.1 / 100,
            royalty * creator.1 >= 0,
    ;
    assert(royalty * creator.1 >= 0) by (nonlinear_arith);
}

/// The first claim of a creator that has one grows by exactly its share of
/// the royalty, rounded down, and no other claim changes, whenever the
/// product and the new amount fit in a `u64`.
pub proof fn lemma_existing_creator_claim_grows(claims: Claims, i: int, creator: (Seq<u8>, u8), royalty: nat)
    requires
        0 <= i < claims.len(),
        claims[i].0 == creator.0,
        forall|j: int| 0 <= j < i ==> claims[j].0 != creator.0,
        royalty * creator.1 <= u64::MAX,
        claims[i].1 + royalty * creator.1 / 100 <= u64::MAX,
    ensures
        record_creator(claims, creator, royalty) matches Some(after) && {
            &&& after.len() == claims.len()
            &&& forall|j: int| 0 <= j < claims.len() && j != i ==> after[j] == claims[j]
            &&& after[i].0 == creator.0
            &&& 100 * (after[i].1 - claims[i].1) <= royalty * creator.1
            &&& royalty * creator.1 < 100 * (after[i].1 - claims[i].1 + 1)
        },
{
    lemma_claim_index_first(claims, creator.0, i);
    let part = royalty * creator.1 / 100;
    assert(royalty * creator.1 >= 0) by (nonlinear_arith);
    assert(100 * part <= royalty * creator.1 < 100 * (part + 1)) by (nonlinear_arith)
        requires
            part == royalty * creator.1 / 100,
            royalty * creator.1 >= 0,
    ;
}

/// Recording a royalty succeeds whenever each creator's product
/// `royalty * share` fits in a `u64` and the claims' total, grown by every
/// creator's share of the royalty, stays within a `u64`.
pub proof fn lemma_record_succeeds_within_bounds(claims: Claims, creators: Seq<(Seq<u8>, u8)>, royalty: nat)
    requires
        forall|k: int| 0 <= k < creators.len() ==> royalty * #[trigger] creators[k].1 <= u64::MAX,
        100 * claims_total(claims) + royalty * shares_total(creators) <= 100 * (u64::MAX as nat),
    ensures
        record_creators(claims, creators, royalty) is Some,
    decreases creators.len(),
{
    if creators.len() > 0 {
        let before = creators.drop_last();
        let creator = creators.last();
        let share = creator.1 as nat;
        assert(royalty * shares_total(creators) == royalty * shares_total(before) + royalty * share) by (nonlinear_arith)
            requires
                shares_total(creators) == shares_total(before) + share,
        ;
        assert(royalty * share >= 0) by (nonlinear_arith);
        assert forall|k: int| 0 <= k < before.len() implies royalty * #[trigger] before[k].1 <= u64::MAX by {
            assert(before[k] == creators[k]);
        }
        lemma_record_succeeds_within_bounds(claims, before, royalty);
        lemma_record_total_scaled(claims, before, royalty);
        let c = record_creators(claims, before, royalty).unwrap();
        assert(creators[creators.len() - 1] == creator);
        let part = royalty * share / 100;
        assert(100 * part <= royalty * share) by (nonlinear_arith)
            requires
                part == royalty * share / 100,
        ;
        if let Some(i) = claim_index(c, creator.0) {
            lemma_claim_index_valid(c, creator.0);
            lemma_claim_within_total(c, i);
        }
    }
}

proof fn lemma_record_total_exact(claims: Claims, creators: Seq<(Seq<u8>, u8)>, royalty: nat)
    requires
        record_creators(claims, creators, royalty) is Some,
        royalty % 100 == 0,
    ensures
        claims_total(record_creators(claims, creators, royalty).unwrap())
            == claims_total(claims) + (royalty / 100) * shares_total(creators),
    decreases creators.len(),
{
    if creators.len() > 0 {
        let before = creators.drop_last();
        lemma_record_total_exact(claims, before, royalty);
        let c = record_creators(claims, before, royalty).unwrap();
        let d = record_creators(claims, creators, royalty).unwrap();
        let creator = creators.last();
        let share = creator.1 as nat;
        let k = royalty / 100;
        assert(royalty * share / 100 == k * share) by (nonlinear_arith)
            requires
                royalty == 100 * k,
                k >= 0,
        ;
        assert(k * shares_total(creators) == k * shares_total(before) + k * share) by (nonlinear_arith)
            requires
                shares_total(creators) == shares_total(before) + share,
        ;
        match claim_index(c, creator.0) {
            Some(i) => {
                lemma_claim_index_valid(c, creator.0);
                lemma_claims_total_update(c, i, (c[i].1 + royalty * share / 100) as u64);
                assert(d == c.update(i, (c[i].0, (c[i].1 + royalty * share / 100) as u64)));
            },
            None => {
                assert(d.drop_last() =~= c);
            },
        }
    } else {
        assert((royalty / 100) * shares_total(creators) == 0) by (nonlinear_arith)
            requires
                shares_total(creators) == 0,
        ;
    }
}

/// With shares adding up to 100 percent and a royalty divisible by 100, the
/// claims grow by exactly the royalty: nothing is lost to rounding.
pub proof fn lemma_whole_shares_record_whole_royalty(claims: Claims, creators: Seq<(Seq<u8>, u8)>, royalty: nat)
    requires
        record_creators(claims, creators, royalty) is Some,
        shares_total(creators) == 100,
        royalty % 100 == 0,
    ensures
        claims_total(record_creators(claims, creators, royalty).unwrap()) == claims_total(claims) + royalty,
{
    lemma_record_total_exact(claims, creators, royalty);
    let k = royalty / 100;
    assert(k * 100 == royalty);
}

/// The total of claims is their sum: adding claims adds their amounts.
pub proof fn lemma_claims_total_append(a: Claims, b: Claims)
    ensures
        claims_total(a + b) == claims_total(a) + claims_total(b),
    decreases b.len(),
{
    if b.len() > 0 {
        assert((a + b).drop_last() =~= a + b.drop_last());
        lemma_claims_total_append(a, b.drop_last());
    } else {
        assert(a + b =~= a);
    }
}

/// The total of shares is their sum: adding creators adds their shares.
pub proof fn lemma_shares_total_append(a: Seq<(Seq<u8>, u8)>, b: Seq<(Seq<u8>, u8)>)
    ensures
        shares_total(a + b) == shares_total(a) + shares_total(b),
    decreases b.len(),
{
    if b.len() > 0 {
        assert((a + b).drop_last() =~= a + b.drop_last());
        lemma_shares_total_append(a, b.drop_last());
    } else {
        assert(a + b =~= a);
    }
}

} // verus!
