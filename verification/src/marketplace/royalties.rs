//! Royalty terms kept in a mint's token metadata: the rate in basis points
//! under the key `royalty_basis_points`, and one entry per creator whose key
//! is the creator's address and whose value is the creator's share in percent.
use vstd::prelude::*;

use crate::decimal::{decimal_string, decimal_text, lemma_decimal_round_trip, parse_u64, parse_u8, parse_unsigned};
use crate::errors::MetadataErrors;
use crate::keys::{address_text, base58_address, base58_text, is_base58_char, parse_address, Address};
use crate::marketplace::distribution::shares_total;
use crate::spl::{
    extra_account_meta_list_size, extra_meta_list_data, get_metadata, metas_view, mint_additional_metadata,
    write_extra_account_meta_list, ExtraAccountMeta,
};
use anchor_lang::solana_program::program_error::ProgramError;

verus! {

/// Key/value pairs of token metadata, as views.
pub type Entries = Seq<(Seq<char>, Seq<char>)>;

/// The metadata key of the royalty rate: `royalty_basis_points`.
pub open spec fn royalty_key() -> Seq<char> {
    seq!['r', 'o', 'y', 'a', 'l', 't', 'y', '_', 'b', 'a', 's', 'i', 's', '_', 'p', 'o', 'i', 'n', 't', 's']
}

/// The value of the first entry with key `key`.
pub open spec fn first_value_for(entries: Entries, key: Seq<char>) -> Option<Seq<char>>
    decreases entries.len(),
{
    if entries.len() == 0 {
        None
    } else if entries[0].0 == key {
        Some(entries[0].1)
    } else {
        first_value_for(entries.drop_first(), key)
    }
}

/// The royalty rate, in basis points, that the entries give: zero without a
/// `royalty_basis_points` entry, none when its value is not a `u64`.
pub open spec fn royalty_basis_points(entries: Entries) -> Option<nat> {
    match first_value_for(entries, royalty_key()) {
        None => Some(0),
        Some(v) => parse_unsigned(v, u64::MAX as nat),
    }
}

/// The royalty on `amount` at `basis_points` (rounded down).
pub open spec fn royalty_of(amount: nat, basis_points: nat) -> nat {
    amount * basis_points / 10000
}

/// Whether the royalty on `amount` can be computed from the entries: the rate
/// reads as a `u64` and `amount * rate` fits in a `u64`.
pub open spec fn royalty_computable(entries: Entries, amount: nat) -> bool {
    royalty_basis_points(entries) matches Some(b) && amount * b <= u64::MAX
}

/// The royalty on `amount` that the entries give.
pub open spec fn royalty_for(entries: Entries, amount: nat) -> nat {
    royalty_of(amount, royalty_basis_points(entries).unwrap())
}

/// A creator and the share of royalties it is owed, in percent.
#[derive(Clone, Copy, Debug, PartialEq, Eq)]
pub struct CreatorWithShare {
    pub address: Address,
    pub share: u8,
}

impl View for CreatorWithShare {
    type V = (Seq<u8>, u8);

    open spec fn view(&self) -> (Seq<u8>, u8) {
        (self.address@, self.share)
    }
}

/// The views of a list of creators.
pub open spec fn creators_view(creators: Seq<CreatorWithShare>) -> Seq<(Seq<u8>, u8)> {
    creators.map_values(|c: CreatorWithShare| c@)
}

/// The creators that the entries name, in order: every entry other than the
/// rate whose key reads as an address, with its value read as a `u8` share.
/// None when such a value is not a `u8`.
pub open spec fn creators_of(entries: Entries) -> Option<Seq<(Seq<u8>, u8)>>
    decreases entries.len(),
{
    if entries.len() == 0 {
        Some(seq![])
    } else {
        match creators_of(entries.drop_last()) {
            None => None,
            Some(before) => {
                let e = entries.last();
                if e.0 == royalty_key() {
                    Some(before)
                } else {
                    match base58_address(e.0) {
                        None => Some(before),
                        Some(address) => match parse_unsigned(e.1, u8::MAX as nat) {
                            None => None,
                            Some(share) => Some(before.push((address, share as u8))),
                        },
                    }
                }
            }
        }
    }
}

/// Whether `key` is `royalty_basis_points`.
fn is_royalty_key(key: &String) -> (r: bool)
    ensures
        r == (key@ == royalty_key()),
{
    let expected = String::from_str("royalty_basis_points");
    proof {
        reveal_strlit("royalty_basis_points");
        assert(expected@ =~= royalty_key());
    }
    *key == expected
}

/// The royalty rate that the entries give, or none when its value is not a
/// `u64`.
pub fn royalty_basis_points_in(entries: &Vec<(String, String)>) -> (r: Option<u64>)
    ensures
        r matches Some(b) ==> royalty_basis_points(entries.deep_view()) == Some(b as nat),
        r is None ==> royalty_basis_points(entries.deep_view()) is None,
{
    let ghost es = entries.deep_view();
    assert(es.skip(0) =~= es);
    let mut i: usize = 0;
    while i < entries.len()
        invariant
            i <= entries.len(),
            es == entries.deep_view(),
            first_value_for(es, royalty_key()) == first_value_for(es.skip(i as int), royalty_key()),
        decreases entries.len() - i,
    {
        assert(es.skip(i as int).drop_first() =~= es.skip(i + 1));
        assert(es.skip(i as int)[0] == es[i as int]);
        if is_royalty_key(&entries[i].0) {
            return parse_u64(entries[i].1.as_str());
        }
        i = i + 1;
    }
    assert(es.skip(i as int).len() == 0);
    Some(0)
}

/// The royalty on `amount` that the entries give: the amount times the rate
/// in basis points, divided by 10000.
pub fn royalty_from_entries(entries: &Vec<(String, String)>, amount: u64) -> (r: u64)
    requires
        royalty_computable(entries.deep_view(), amount as nat),
    ensures
        r as nat == royalty_for(entries.deep_view(), amount as nat),
{
    let basis_points = match royalty_basis_points_in(entries) {
        Some(b) => b,
        None => 0,
    };
    (amount * basis_points) / 10000
}

/// Whether the royalty of the mint with data `mint_data` on `amount` is
/// computed without aborting: the data does not read as metadata (an error
/// then), or the metadata's rate can be applied to the amount.
pub open spec fn royalty_decided(mint_data: Seq<u8>, amount: nat) -> bool {
    mint_additional_metadata(mint_data) matches Some(es) ==> royalty_computable(es, amount)
}

/// The royalty owed on a sale of `amount` lamports of the NFT whose mint
/// account holds `mint_data`.
pub fn calculate_royalties(mint_data: &[u8], amount: u64) -> (r: Result<u64, ProgramError>)
    requires
        royalty_decided(mint_data@, amount as nat),
    ensures
        r is Err <==> mint_additional_metadata(mint_data@) is None,
        r matches Ok(v) ==> v as nat == royalty_for(mint_additional_metadata(mint_data@).unwrap(), amount as nat),
{
    let metadata = get_metadata(mint_data)?;
    Ok(royalty_from_entries(&metadata, amount))
}

/// As `calculate_royalties`, but first tests whether it completes: none where
/// the stored rate is not a `u64` or the product overflows, in which cases
/// the computation aborts.
pub fn try_calculate_royalties(mint_data: &[u8], amount: u64) -> (r: Option<Result<u64, ProgramError>>)
    ensures
        r is None <==> !royalty_decided(mint_data@, amount as nat),
        r matches Some(res) ==> (res is Err <==> mint_additional_metadata(mint_data@) is None),
        r matches Some(Ok(v)) ==> v as nat == royalty_for(mint_additional_metadata(mint_data@).unwrap(), amount as nat),
{
    match get_metadata(mint_data) {
        Err(e) => Some(Err(e)),
        Ok(metadata) => match royalty_basis_points_in(&metadata) {
            None => None,
            Some(b) => match amount.checked_mul(b) {
                None => None,
                Some(_) => Some(calculate_royalties(mint_data, amount)),
            },
        },
    }
}

/// Whether every creator entry's share reads as a `u8`.
pub open spec fn shares_readable(entries: Entries) -> bool {
    creators_of(entries) is Some
}

proof fn lemma_creators_of_len(entries: Entries)
    requires
        creators_of(entries) is Some,
    ensures
        creators_of(entries).unwrap().len() <= entries.len(),
    decreases entries.len(),
{
    if entries.len() > 0 {
        lemma_creators_of_len(entries.drop_last());
    }
}

/// The creators named by the entries, with their shares, in the order of the
/// entries.
pub fn creators_from_entries(entries: &Vec<(String, String)>) -> (r: Vec<CreatorWithShare>)
    requires
        shares_readable(entries.deep_view()),
    ensures
        creators_of(entries.deep_view()) == Some(creators_view(r@)),
{
    let ghost es = entries.deep_view();
    let mut creators: Vec<CreatorWithShare> = Vec::new();
    let mut i: usize = 0;
    while i < entries.len()
        invariant
            i <= entries.len(),
            es == entries.deep_view(),
            shares_readable(es),
            creators_of(es.take(i as int)) == Some(creators_view(creators@)),
        decreases entries.len() - i,
    {
        proof {
            assert(es.take(i + 1).drop_last() =~= es.take(i as int));
            assert(es.take(i + 1).last() == es[i as int]);
            lemma_creators_of_prefix(es, i + 1);
        }
        let key = &entries[i].0;
        if !is_royalty_key(key) {
            match parse_address(key.as_str()) {
                None => {},
                Some(address) => {
                    let share = match parse_u8(entries[i].1.as_str()) {
                        Some(s) => s,
                        None => 0,
                    };
                    let ghost before = creators@;
                    creators.push(CreatorWithShare { address, share });
                    assert(creators_view(creators@) =~= creators_view(before).push((address@, share)));
                },
            }
        }
        i = i + 1;
    }
    assert(es.take(i as int) =~= es);
    creators
}

proof fn lemma_creators_of_prefix(entries: Entries, k: int)
    requires
        0 <= k <= entries.len(),
        creators_of(entries) is Some,
    ensures
        creators_of(entries.take(k)) is Some,
    decreases entries.len(),
{
    if k < entries.len() {
        assert(entries.drop_last().take(k) =~= entries.take(k));
        lemma_creators_of_prefix(entries.drop_last(), k);
    } else {
        assert(entries.take(k) =~= entries);
    }
}

/// As `creators_from_entries`, but first tests whether it completes: none
/// where a creator's share does not read as a `u8`, in which case reading the
/// creators aborts.
pub fn try_creators_from_entries(entries: &Vec<(String, String)>) -> (r: Option<Vec<CreatorWithShare>>)
    ensures
        r is None <==> !shares_readable(entries.deep_view()),
        r matches Some(v) ==> creators_of(entries.deep_view()) == Some(creators_view(v@)),
{
    let ghost es = entries.deep_view();
    let mut i: usize = 0;
    while i < entries.len()
        invariant
            i <= entries.len(),
            es == entries.deep_view(),
            creators_of(es.take(i as int)) is Some,
        decreases entries.len() - i,
    {
        proof {
            assert(es.take(i + 1).drop_last() =~= es.take(i as int));
            assert(es.take(i + 1).last() == es[i as int]);
        }
        let key = &entries[i].0;
        if !is_royalty_key(key) {
            if let Some(_) = parse_address(key.as_str()) {
                if parse_u8(entries[i].1.as_str()).is_none() {
                    proof {
                        lemma_creators_of_stays_none(es, i + 1);
                    }
                    return None;
                }
            }
        }
        i = i + 1;
    }
    assert(es.take(i as int) =~= es);
    Some(creators_from_entries(entries))
}

proof fn lemma_creators_of_stays_none(entries: Entries, k: int)
    requires
        0 <= k <= entries.len(),
        creators_of(entries.take(k)) is None,
    ensures
        creators_of(entries) is None,
    decreases entries.len(),
{
    if k < entries.len() {
        assert(entries.drop_last().take(k) =~= entries.take(k));
        lemma_creators_of_stays_none(entries.drop_last(), k);
    } else {
        assert(entries.take(k) =~= entries);
    }
}

/// The royalty terms to store: the rate in basis points and the creators.
#[derive(Clone, Debug, PartialEq, Eq)]
pub struct UpdateRoyaltiesArgs {
    pub royalty_basis_points: u16,
    pub creators: Vec<CreatorWithShare>,
}

/// The metadata fields that store the terms, in the order they are written:
/// the rate under `royalty_basis_points`, then each creator under its
/// address, all values in decimal.
pub open spec fn royalty_fields(basis_points: nat, creators: Seq<(Seq<u8>, u8)>) -> Entries {
    seq![(royalty_key(), decimal_text(basis_points))] + creators.map_values(
        |c: (Seq<u8>, u8)| (base58_text(c.0), decimal_text(c.1 as nat)),
    )
}

/// What storing the terms gives: the rate must be at most 10000 basis points,
/// and the shares must add up to exactly 100 percent.
pub open spec fn royalty_fields_outcome(basis_points: nat, creators: Seq<(Seq<u8>, u8)>) -> Result<Entries, MetadataErrors> {
    if basis_points > 10000 {
        Err(MetadataErrors::RoyaltyBasisPointsInvalid)
    } else if shares_total(creators) != 100 {
        Err(MetadataErrors::CreatorShareInvalid)
    } else {
        Ok(royalty_fields(basis_points, creators))
    }
}

proof fn lemma_shares_total_prefix(creators: Seq<(Seq<u8>, u8)>, k: int)
    requires
        0 <= k <= creators.len(),
    ensures
        shares_total(creators.take(k)) <= shares_total(creators),
    decreases creators.len(),
{
    if k < creators.len() {
        assert(creators.drop_last().take(k) =~= creators.take(k));
        lemma_shares_total_prefix(creators.drop_last(), k);
    } else {
        assert(creators.take(k) =~= creators);
    }
}

/// The metadata fields, with their values, that store the royalty terms.
///
/// The fields read back as the terms: the rate that `calculate_royalties`
/// applies is the given one, and the creators that a sale pays are the given
/// ones, in order.
pub fn royalty_metadata_fields(args: &UpdateRoyaltiesArgs) -> (r: Result<Vec<(String, String)>, MetadataErrors>)
    ensures
        match royalty_fields_outcome(args.royalty_basis_points as nat, creators_view(args.creators@)) {
            Ok(fields) => r matches Ok(f) && f.deep_view() == fields,
            Err(e) => r == Err::<Vec<(String, String)>, MetadataErrors>(e),
        },
        r matches Ok(f) ==> royalty_basis_points(f.deep_view()) == Some(args.royalty_basis_points as nat),
        r matches Ok(f) ==> creators_of(f.deep_view()) == Some(creators_view(args.creators@)),
{
    if args.royalty_basis_points > 10000 {
        return Err(MetadataErrors::RoyaltyBasisPointsInvalid);
    }
    let ghost cs = creators_view(args.creators@);
    let ghost bps = args.royalty_basis_points as nat;
    let mut fields: Vec<(String, String)> = Vec::new();
    let key = String::from_str("royalty_basis_points");
    proof {
        reveal_strlit("royalty_basis_points");
        assert(key@ =~= royalty_key());
    }
    fields.push((key, decimal_string(args.royalty_basis_points as u64)));
    proof {
        lemma_decimal_round_trip(bps, u64::MAX as nat);
        let f = fields.deep_view();
        assert(f.drop_last() =~= Seq::<(Seq<char>, Seq<char>)>::empty());
        assert(f =~= royalty_fields(bps, cs.take(0)));
        assert(first_value_for(f, royalty_key()) == Some(decimal_text(bps)));
        assert(creators_of(f.drop_last()) == Some(Seq::<(Seq<u8>, u8)>::empty()));
        assert(cs.take(0) =~= Seq::<(Seq<u8>, u8)>::empty());
        assert(creators_of(f) == Some(cs.take(0)));
    }
    let mut total_share: u8 = 0;
    let mut i: usize = 0;
    while i < args.creators.len()
        invariant
            i <= args.creators@.len(),
            cs == creators_view(args.creators@),
            bps == args.royalty_basis_points as nat,
            bps <= 10000,
            total_share as nat == shares_total(cs.take(i as int)),
            fields.deep_view() =~= royalty_fields(bps, cs.take(i as int)),
            royalty_basis_points(fields.deep_view()) == Some(bps),
            creators_of(fields.deep_view()) == Some(cs.take(i as int)),
        decreases args.creators.len() - i,
    {
        let creator = args.creators[i];
        proof {
            assert(cs.take(i + 1).drop_last() =~= cs.take(i as int));
            assert(cs.take(i + 1).last() == creator@);
        }
        total_share = match total_share.checked_add(creator.share) {
            Some(t) => t,
            None => {
                proof {
                    lemma_shares_total_prefix(cs, i + 1);
                }
                return Err(MetadataErrors::CreatorShareInvalid);
            },
        };
        let ghost before = fields.deep_view();
        let text = address_text(&creator.address);
        let share_text = decimal_string(creator.share as u64);
        fields.push((text, share_text));
        proof {
            let f = fields.deep_view();
            let entry = (base58_text(creator.address@), decimal_text(creator.share as nat));
            assert(f =~= before.push(entry));
            assert(f.drop_last() =~= before);
            assert(f =~= royalty_fields(bps, cs.take(i + 1)));
            if entry.0 == royalty_key() {
                assert(is_base58_char(entry.0[7]));
            }
            lemma_decimal_round_trip(creator.share as nat, u8::MAX as nat);
            assert(creators_of(f) == Some(cs.take(i as int).push(creator@)));
            assert(cs.take(i as int).push(creator@) =~= cs.take(i + 1));
            lemma_first_value_after_push(before, entry, royalty_key());
        }
        i = i + 1;
    }
    assert(cs.take(i as int) =~= cs);
    if total_share != 100 {
        return Err(MetadataErrors::CreatorShareInvalid);
    }
    Ok(fields)
}

proof fn lemma_first_value_after_push(entries: Entries, entry: (Seq<char>, Seq<char>), key: Seq<char>)
    requires
        first_value_for(entries, key) is Some,
    ensures
        first_value_for(entries.push(entry), key) == first_value_for(entries, key),
    decreases entries.len(),
{
    if entries[0].0 != key {
        assert(entries.push(entry).drop_first() =~= entries.drop_first().push(entry));
        lemma_first_value_after_push(entries.drop_first(), entry, key);
    }
}

/// Accounts of `add_royalties`: the data of the account that will hold the
/// extra account metas of the transfer hook.
#[derive(Clone, Debug, PartialEq, Eq)]
pub struct AddRoyalties {
    pub extra_metas_account: Vec<u8>,
}

/// An error of `add_royalties`.
#[derive(Debug)]
pub enum AddRoyaltiesError {
    Metadata(MetadataErrors),
    Program(ProgramError),
}

impl AddRoyalties {
    /// The extra accounts the transfer hook needs: none.
    pub fn account_metas() -> (r: Vec<ExtraAccountMeta>)
        ensures
            r@.len() == 0,
    {
        Vec::new()
    }

    /// The data size of the extra-account-metas account: that of an empty list.
    pub fn extra_account_metas_size() -> (r: Result<usize, ProgramError>)
        ensures
            r is Ok,
            r matches Ok(n) ==> n == 16,
    {
        let metas = AddRoyalties::account_metas();
        extra_account_meta_list_size(metas.len())
    }

    /// Writes the (empty) list of extra account metas into its account; this
    /// succeeds exactly when the account holds at least the 16 bytes of an
    /// empty list.
    pub fn init_account_metas(&mut self) -> (r: Result<(), ProgramError>)
        requires
            forall|i: int| 0 <= i < old(self).extra_metas_account@.len() ==> #[trigger] old(self).extra_metas_account@[i] == 0u8,
        ensures
            final(self).extra_metas_account@.len() == old(self).extra_metas_account@.len(),
            r is Ok <==> old(self).extra_metas_account@.len() >= 16,
            r is Ok ==> final(self).extra_metas_account@ == extra_meta_list_data(
                old(self).extra_metas_account@,
                Seq::empty(),
            ),
    {
        let metas = AddRoyalties::account_metas();
        proof {
            assert(metas_view(metas@) =~= Seq::empty());
        }
        write_extra_account_meta_list(&mut self.extra_metas_account, &metas)
    }
}

/// Checks the royalty terms, writes the transfer hook's list of extra
/// account metas, and gives the metadata fields to store, in order.
///
/// The terms are checked before anything is written: on a refused rate or
/// shares the accounts are left unchanged.  Valid terms succeed exactly when
/// the account holds the 16 bytes of an empty list.
pub fn add_royalties(accounts: &mut AddRoyalties, args: &UpdateRoyaltiesArgs) -> (r: Result<Vec<(String, String)>, AddRoyaltiesError>)
    requires
        forall|i: int| 0 <= i < old(accounts).extra_metas_account@.len() ==> #[trigger] old(accounts).extra_metas_account@[i] == 0u8,
    ensures
        match royalty_fields_outcome(args.royalty_basis_points as nat, creators_view(args.creators@)) {
            Err(e) => r matches Err(AddRoyaltiesError::Metadata(e2)) && e2 == e && *final(accounts) == *old(accounts),
            Ok(fields) => {
                &&& r is Ok <==> old(accounts).extra_metas_account@.len() >= 16
                &&& r matches Ok(f) ==> f.deep_view() == fields && final(accounts).extra_metas_account@ == extra_meta_list_data(
                    old(accounts).extra_metas_account@,
                    Seq::empty(),
                )
                &&& r matches Err(e) ==> e is Program
            },
        },
{
    let fields = match royalty_metadata_fields(args) {
        Ok(f) => f,
        Err(e) => return Err(AddRoyaltiesError::Metadata(e)),
    };
    match accounts.init_account_metas() {
        Ok(()) => Ok(fields),
        Err(e) => Err(AddRoyaltiesError::Program(e)),
    }
}

/// The royalty is the amount's share at the rate in basis points, rounded
/// down: ten thousand royalties are at most `amount * basis_points`, and ten
/// thousand more than that.
pub proof fn lemma_royalty_is_rate_share(amount: nat, basis_points: nat)
    ensures
        10000 * royalty_of(amount, basis_points) <= amount * basis_points,
        amount * basis_points < 10000 * (royalty_of(amount, basis_points) + 1),
{
    let p = amount * basis_points;
    assert(p >= 0) by (nonlinear_arith);
    let q = p / 10000;
    assert(10000 * q <= p < 10000 * (q + 1)) by (nonlinear_arith)
        requires
            q == p / 10000,
            p >= 0,
    ;
}

/// The royalty that a mint's metadata gives on `amount`, whenever it can be
/// computed, is the amount's share at the stored rate, rounded down.
pub proof fn lemma_royalty_for_is_stored_rate_share(entries: Entries, amount: nat)
    requires
        royalty_computable(entries, amount),
    ensures
        10000 * royalty_for(entries, amount) <= amount * royalty_basis_points(entries).unwrap(),
        amount * royalty_basis_points(entries).unwrap() < 10000 * (royalty_for(entries, amount) + 1),
{
    lemma_royalty_is_rate_share(amount, royalty_basis_points(entries).unwrap());
}

/// Terms are stored exactly when the rate is at most 10000 basis points and
/// the creators' shares add up to exactly 100 percent; a rate above that is
/// refused first, then shares with any other total.
pub proof fn lemma_stored_terms_are_valid(basis_points: nat, creators: Seq<(Seq<u8>, u8)>)
    ensures
        royalty_fields_outcome(basis_points, creators) is Ok <==> basis_points <= 10000 && shares_total(creators) == 100,
        basis_points > 10000 ==> royalty_fields_outcome(basis_points, creators) == Err::<Entries, MetadataErrors>(
            MetadataErrors::RoyaltyBasisPointsInvalid,
        ),
        basis_points <= 10000 && shares_total(creators) != 100 ==> royalty_fields_outcome(basis_points, creators)
            == Err::<Entries, MetadataErrors>(MetadataErrors::CreatorShareInvalid),
{
}

} // verus!
