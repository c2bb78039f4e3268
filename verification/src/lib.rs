//! Verified core of a set of Solana programs: a counter, token collections,
//! a royalty-enforcing NFT marketplace, transfer hooks and a small exchange.
pub mod counter;
pub mod decimal;
pub mod errors;
pub mod keys;
pub mod spl;
pub mod marketplace;
pub mod dex;
pub mod collection;
pub mod enforced_transfer_hook;
pub mod rent;
pub mod royalty_transfer_hook;
pub mod token_2022;
