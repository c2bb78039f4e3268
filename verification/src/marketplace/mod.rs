//! The royalty-enforcing NFT marketplace.
pub mod royalties;
pub mod distribution;
pub mod listing;
pub mod buy;
