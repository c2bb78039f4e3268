//! Account addresses and their base58 text.
use anchor_lang::prelude::Pubkey;
use std::str::FromStr;
use vstd::prelude::*;

verus! {

/// A 32-byte account address: a public key or a program-derived address.
#[derive(Clone, Copy, Debug, PartialEq, Eq)]
pub struct Address {
    pub bytes: [u8; 32],
}

impl View for Address {
    type V = Seq<u8>;

    open spec fn view(&self) -> Seq<u8> {
        self.bytes@
    }
}

impl Address {
    /// The address made of `bytes`.
    pub fn new(bytes: [u8; 32]) -> (r: Address)
        ensures
            r.bytes == bytes,
    {
        Address { bytes }
    }

    /// Whether both addresses hold the same 32 bytes.
    pub fn same_as(&self, other: &Address) -> (r: bool)
        ensures
            r == (self@ == other@),
    {
        let mut i: usize = 0;
        while i < 32
            invariant
                i <= 32,
                self@.len() == 32,
                other@.len() == 32,
                forall|j: int| 0 <= j < i ==> self@[j] == other@[j],
            decreases 32 - i,
        {
            if self.bytes[i] != other.bytes[i] {
                return false;
            }
            i = i + 1;
        }
        assert(self@ =~= other@);
        true
    }
}

/// Whether `c` belongs to the base58 alphabet that addresses are written in
/// (`1`..`9`, `A`..`Z` without `I` and `O`, `a`..`z` without `l`).
pub open spec fn is_base58_char(c: char) -> bool {
    ||| ('1' <= c && c <= '9')
    ||| ('A' <= c && c <= 'Z' && c != 'I' && c != 'O')
    ||| ('a' <= c && c <= 'z' && c != 'l')
}

/// The address that the text `text` denotes, if it denotes one: what
/// `Pubkey::from_str` accepts (base58 of exactly 32 bytes, at most 44
/// characters).
pub uninterp spec fn base58_address(text: Seq<char>) -> Option<Seq<u8>>;

/// The base58 text of the address `key`, as `Pubkey::to_string` writes it.
pub uninterp spec fn base58_text(key: Seq<u8>) -> Seq<char>;

/// Reads `text` with `solana_program`'s `Pubkey::from_str`.
/// Claims that the result is the named `base58_address` of the text,
/// an address exactly when that name gives one.
#[verifier::external_body]
pub(crate) fn parse_address(text: &str) -> (r: Option<Address>)
    ensures
        r matches Some(a) ==> base58_address(text@) == Some(a@),
        r is None ==> base58_address(text@) is None,
{
    Pubkey::from_str(text).ok().map(|key| Address { bytes: key.to_bytes() })
}

/// Writes `key` with `solana_program`'s `Pubkey::to_string` (base58 through
/// `bs58::encode`).
/// Claims that the text is the named `base58_text` of the key; that
/// `Pubkey::from_str` reads the key back from it (base58 decoding undoes
/// encoding, and 32 bytes never take more than 44 characters); and that every
/// character of it is in the base58 alphabet, which is the only alphabet the
/// encoder writes.
#[verifier::external_body]
pub(crate) fn address_text(key: &Address) -> (r: String)
    ensures
        r@ == base58_text(key@),
        base58_address(r@) == Some(key@),
        forall|i: int| 0 <= i < r@.len() ==> is_base58_char(#[trigger] r@[i]),
{
    Pubkey::new_from_array(key.bytes).to_string()
}

} // verus!
