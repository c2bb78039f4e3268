//! What the programs read and write through the SPL token-2022 and TLV
//! account-resolution libraries.
use anchor_lang::solana_program::program_error::ProgramError;
use anchor_spl::token_2022::spl_token_2022::extension::transfer_hook::TransferHookAccount;
use anchor_spl::token_2022::spl_token_2022::extension::{
    BaseStateWithExtensions, BaseStateWithExtensionsMut, ExtensionType, PodStateWithExtensionsMut,
    StateWithExtensions,
};
use anchor_spl::token_2022::spl_token_2022::pod::PodAccount;
use anchor_spl::token_2022::spl_token_2022::state::Mint;
use anchor_spl::token_interface::spl_token_metadata_interface::state::TokenMetadata;
use spl_tlv_account_resolution::state::ExtraAccountMetaList;
use spl_transfer_hook_interface::instruction::ExecuteInstruction;
use vstd::prelude::*;

use crate::keys::Address;

verus! {

/// An error of the Solana runtime or of an SPL library.
#[verifier::external_type_specification]
#[verifier::external_body]
pub struct ExProgramError(ProgramError);

/// One extra account that a transfer hook asks the token program to pass
/// along: how its address is given (`0`: the address itself), the address
/// configuration, and whether it signs and is writable.
#[derive(Clone, Copy, Debug, PartialEq, Eq)]
pub struct ExtraAccountMeta {
    pub discriminator: u8,
    pub address_config: [u8; 32],
    pub is_signer: bool,
    pub is_writable: bool,
}

impl View for ExtraAccountMeta {
    type V = (u8, Seq<u8>, bool, bool);

    open spec fn view(&self) -> (u8, Seq<u8>, bool, bool) {
        (self.discriminator, self.address_config@, self.is_signer, self.is_writable)
    }
}

/// The views of a list of extra account metas.
pub open spec fn metas_view(metas: Seq<ExtraAccountMeta>) -> Seq<(u8, Seq<u8>, bool, bool)> {
    metas.map_values(|m: ExtraAccountMeta| m@)
}

impl ExtraAccountMeta {
    /// The meta of a fixed account, as `ExtraAccountMeta::new_with_pubkey`
    /// of spl-tlv-account-resolution builds it.
    pub fn new_with_pubkey(pubkey: &Address, is_signer: bool, is_writable: bool) -> (r: ExtraAccountMeta)
        ensures
            r.discriminator == 0,
            r.address_config == pubkey.bytes,
            r.is_signer == is_signer,
            r.is_writable == is_writable,
    {
        ExtraAccountMeta { discriminator: 0, address_config: pubkey.bytes, is_signer, is_writable }
    }
}

/// The additional key/value metadata that the token-metadata extension of a
/// token-2022 mint account with data `data` holds, if the data unpacks as such
/// a mint with that extension.
pub uninterp spec fn mint_additional_metadata(data: Seq<u8>) -> Option<Seq<(Seq<char>, Seq<char>)>>;

/// Whether the transfer-hook extension of the token-2022 token account with
/// data `data` marks it as in the middle of a transfer, if the data unpacks
/// as an initialised token account with that extension.
pub uninterp spec fn token_account_transferring(data: Seq<u8>) -> Option<bool>;

/// The four little-endian bytes of a `u32`.
pub open spec fn u32_le_bytes(x: nat) -> Seq<u8> {
    seq![(x % 256) as u8, ((x / 256) % 256) as u8, ((x / 65536) % 256) as u8, ((x / 16777216) % 256) as u8]
}

/// The discriminator of the transfer hook's execute instruction: the first
/// eight bytes of the SHA-256 hash of `spl-transfer-hook-interface:execute`.
pub open spec fn execute_discriminator() -> Seq<u8> {
    seq![105u8, 37, 101, 197, 75, 251, 102, 26]
}

/// The 35 bytes of one extra account meta: its discriminator, its 32-byte
/// address configuration, then whether it signs and whether it is writable
/// (one byte each, `1` for yes).
pub open spec fn meta_bytes(m: (u8, Seq<u8>, bool, bool)) -> Seq<u8> {
    seq![m.0] + m.1 + seq![if m.2 { 1u8 } else { 0u8 }, if m.3 { 1u8 } else { 0u8 }]
}

/// The bytes of a list of metas, one after the other.
pub open spec fn metas_bytes(metas: Seq<(u8, Seq<u8>, bool, bool)>) -> Seq<u8>
    decreases metas.len(),
{
    if metas.len() == 0 {
        Seq::empty()
    } else {
        metas_bytes(metas.drop_last()) + meta_bytes(metas.last())
    }
}

/// The entry that holds a list of metas for the execute instruction: the
/// instruction's discriminator, the entry's length (a 4-byte count and the
/// metas), the count, and the metas.
pub open spec fn meta_list_entry(metas: Seq<(u8, Seq<u8>, bool, bool)>) -> Seq<u8> {
    execute_discriminator() + u32_le_bytes(4 + 35 * metas.len()) + u32_le_bytes(metas.len()) + metas_bytes(metas)
}

/// The data of an account after the list `metas` of extra account metas for
/// the transfer hook's execute instruction is written at its start; the bytes
/// after the entry stay as they were.
pub open spec fn extra_meta_list_data(data: Seq<u8>, metas: Seq<(u8, Seq<u8>, bool, bool)>) -> Seq<u8> {
    meta_list_entry(metas) + data.skip(meta_list_entry(metas).len() as int)
}

/// Reads the token metadata of a mint: `StateWithExtensions::<Mint>::unpack`
/// of spl-token-2022 on the account data, then
/// `get_variable_len_extension::<TokenMetadata>`, keeping its additional
/// key/value pairs.
/// Claims that the pairs are the named `mint_additional_metadata` of the data,
/// and that the call fails exactly when that name gives none.
#[verifier::external_body]
pub fn get_metadata(mint_data: &[u8]) -> (r: Result<Vec<(String, String)>, ProgramError>)
    ensures
        r matches Ok(pairs) ==> mint_additional_metadata(mint_data@) == Some(pairs.deep_view()),
        r is Err ==> mint_additional_metadata(mint_data@) is None,
{
    let mint = StateWithExtensions::<Mint>::unpack(mint_data)?;
    mint.get_variable_len_extension::<TokenMetadata>().map(|metadata| metadata.additional_metadata)
}

/// Reads the `transferring` flag of a token account:
/// `PodStateWithExtensionsMut::<PodAccount>::unpack` of spl-token-2022 on (a
/// copy of) the account data, then `get_extension_mut::<TransferHookAccount>`.
/// Claims that the flag is the named `token_account_transferring` of the data,
/// and that the call fails exactly when that name gives none.
#[verifier::external_body]
pub(crate) fn read_transferring_flag(account_data: &[u8]) -> (r: Result<bool, ProgramError>)
    ensures
        r matches Ok(b) ==> token_account_transferring(account_data@) == Some(b),
        r is Err ==> token_account_transferring(account_data@) is None,
{
    let mut buffer = account_data.to_vec();
    let mut account = PodStateWithExtensionsMut::<PodAccount>::unpack(&mut buffer)?;
    let extension = account.get_extension_mut::<TransferHookAccount>()?;
    Ok(bool::from(extension.transferring))
}

/// `ExtensionType::try_calculate_account_len::<Mint>(&[MetadataPointer])` of
/// spl-token-2022.
/// Claims the value its source gives: the 165 bytes of a base account, one
/// byte of account type, and a TLV entry of 2 + 2 + 64 bytes for the pointer.
#[verifier::external_body]
pub(crate) fn mint_len_with_metadata_pointer() -> (r: Result<usize, ProgramError>)
    ensures
        r is Ok,
        r matches Ok(n) ==> n == 234,
{
    ExtensionType::try_calculate_account_len::<Mint>(&[ExtensionType::MetadataPointer])
}

/// `ExtraAccountMetaList::size_of` of spl-tlv-account-resolution: the bytes an
/// account needs for a list of `num_items` extra account metas.
/// Claims the value its source gives: an 8-byte discriminator and a 4-byte
/// length, then a 4-byte count and 35 bytes per meta; it fails when
/// `35 * num_items + 4` does not fit in a `usize`, and the final addition
/// saturates.
#[verifier::external_body]
pub(crate) fn extra_account_meta_list_size(num_items: usize) -> (r: Result<usize, ProgramError>)
    ensures
        r is Ok <==> 35 * num_items + 4 <= usize::MAX,
        r matches Ok(n) ==> n == if 35 * num_items + 16 <= usize::MAX {
            35 * num_items + 16
        } else {
            usize::MAX as int
        },
{
    ExtraAccountMetaList::size_of(num_items)
}

/// `ExtraAccountMetaList::init::<ExecuteInstruction>` of
/// spl-tlv-account-resolution on `data`, with the metas built from `metas`.
/// Requires zeroed data, on which the source's `TlvStateMut::unpack(..).unwrap()`
/// cannot panic.  Claims that the length of the data is kept; that the call
/// succeeds exactly when the entry fits: its 8-byte discriminator, 4-byte
/// length and the 4 + 35-per-meta bytes of the list within the data (the
/// source's `alloc` and `PodSliceMut::init`), with the list's size within a
/// `u32` (the source's `Length::try_from`); and that on success the data is
/// `extra_meta_list_data` of the old data and the metas: the TLV entry
/// (`alloc` writes the discriminator and length, `PodSliceMut::init` and
/// `push` the count and the `repr(C)` metas) followed by the untouched rest.
/// It does not state what a failed call leaves in the data.
#[verifier::external_body]
pub(crate) fn write_extra_account_meta_list(data: &mut Vec<u8>, metas: &Vec<ExtraAccountMeta>) -> (r: Result<(), ProgramError>)
    requires
        forall|i: int| 0 <= i < old(data)@.len() ==> #[trigger] old(data)@[i] == 0u8,
    ensures
        final(data)@.len() == old(data)@.len(),
        r is Ok <==> (35 * metas@.len() + 16 <= old(data)@.len() && 35 * metas@.len() + 4 <= u32::MAX),
        r is Ok ==> final(data)@ == extra_meta_list_data(old(data)@, metas_view(metas@)),
{
    let metas: Vec<spl_tlv_account_resolution::account::ExtraAccountMeta> = metas.iter().map(|m| {
        spl_tlv_account_resolution::account::ExtraAccountMeta {
            discriminator: m.discriminator,
            address_config: m.address_config,
            is_signer: m.is_signer.into(),
            is_writable: m.is_writable.into(),
        }
    }).collect();
    ExtraAccountMetaList::init::<ExecuteInstruction>(data.as_mut_slice(), &metas)
}

} // verus!
