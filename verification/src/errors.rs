//! Errors that the programs report, besides those of the runtime.
use vstd::prelude::*;

verus! {

/// Errors about token metadata, royalties and collections.
#[derive(Clone, Copy, Debug, PartialEq, Eq)]
pub enum MetadataErrors {
    SizeExceedsMaxSize,
    MaxSizeBelowCurrentSize,
    CreatorShareInvalid,
    MissingApproveAccount,
    ExpiredApproveAccount,
    InvalidField,
    CreatorAddressInvalid,
    RoyaltyBasisPointsInvalid,
    IsNotCurrentlyTransferring,
}

/// Errors about mints.
#[derive(Clone, Copy, Debug, PartialEq, Eq)]
pub enum MintErrors {
    InvalidFreezeAuthority,
    InvalidDelegateAuthority,
    InvalidTokenGroupMemberMint,
}

/// Errors of the marketplace.
#[derive(Clone, Copy, Debug, PartialEq, Eq)]
pub enum MarketplaceError {
    ArithmeticError,
    RequireMarketplaceProgram,
}

/// Errors of the exchange.
#[derive(Clone, Copy, Debug, PartialEq, Eq)]
pub enum ExchangeError {
    InvalidAssetKey,
    InvalidSwapNotEnoughLiquidity,
}

/// A declared account constraint that the given accounts break.
#[derive(Clone, Copy, Debug, PartialEq, Eq)]
pub enum ConstraintError {
    /// A `has_one` constraint: a stored key differs from the given account.
    ConstraintHasOne,
    /// A `constraint = ..` expression is false.
    ConstraintRaw,
}

/// The message of each metadata error.
pub open spec fn metadata_error_message(e: MetadataErrors) -> Seq<char> {
    match e {
        MetadataErrors::SizeExceedsMaxSize => "Collection size exceeds max size."@,
        MetadataErrors::MaxSizeBelowCurrentSize => "Max size cannot be reduced below current size."@,
        MetadataErrors::CreatorShareInvalid => "Creators shares must add up to 100."@,
        MetadataErrors::MissingApproveAccount => "Missing approve account."@,
        MetadataErrors::ExpiredApproveAccount => "Approve account has expired."@,
        MetadataErrors::InvalidField => "Invalid field. You cannot use a public key as a field."@,
        MetadataErrors::CreatorAddressInvalid => "The Address you provided is invalid. Please provide a valid address."@,
        MetadataErrors::RoyaltyBasisPointsInvalid => "Royalty basis points must be less than or equal to 10000."@,
        MetadataErrors::IsNotCurrentlyTransferring => "Is Not Currently Transferring"@,
    }
}

impl MetadataErrors {
    /// The message that goes with the error.
    pub fn message(&self) -> (r: &'static str)
        ensures
            r@ == metadata_error_message(*self),
    {
        match self {
            MetadataErrors::SizeExceedsMaxSize => "Collection size exceeds max size.",
            MetadataErrors::MaxSizeBelowCurrentSize => "Max size cannot be reduced below current size.",
            MetadataErrors::CreatorShareInvalid => "Creators shares must add up to 100.",
            MetadataErrors::MissingApproveAccount => "Missing approve account.",
            MetadataErrors::ExpiredApproveAccount => "Approve account has expired.",
            MetadataErrors::InvalidField => "Invalid field. You cannot use a public key as a field.",
            MetadataErrors::CreatorAddressInvalid => "The Address you provided is invalid. Please provide a valid address.",
            MetadataErrors::RoyaltyBasisPointsInvalid => "Royalty basis points must be less than or equal to 10000.",
            MetadataErrors::IsNotCurrentlyTransferring => "Is Not Currently Transferring",
        }
    }
}

/// The message of each mint error.
pub open spec fn mint_error_message(e: MintErrors) -> Seq<char> {
    match e {
        MintErrors::InvalidFreezeAuthority => "Invalid freeze authority."@,
        MintErrors::InvalidDelegateAuthority => "Invalid delegate authority."@,
        MintErrors::InvalidTokenGroupMemberMint => "Invalid Token group member mint"@,
    }
}

impl MintErrors {
    /// The message that goes with the error.
    pub fn message(&self) -> (r: &'static str)
        ensures
            r@ == mint_error_message(*self),
    {
        match self {
            MintErrors::InvalidFreezeAuthority => "Invalid freeze authority.",
            MintErrors::InvalidDelegateAuthority => "Invalid delegate authority.",
            MintErrors::InvalidTokenGroupMemberMint => "Invalid Token group member mint",
        }
    }
}

/// The message of each marketplace error.
pub open spec fn marketplace_error_message(e: MarketplaceError) -> Seq<char> {
    match e {
        MarketplaceError::ArithmeticError => "Arithmetic error"@,
        MarketplaceError::RequireMarketplaceProgram => "Only Marketplace program can enforce royalties"@,
    }
}

impl MarketplaceError {
    /// The message that goes with the error.
    pub fn message(&self) -> (r: &'static str)
        ensures
            r@ == marketplace_error_message(*self),
    {
        match self {
            MarketplaceError::ArithmeticError => "Arithmetic error",
            MarketplaceError::RequireMarketplaceProgram => "Only Marketplace program can enforce royalties",
        }
    }
}

} // verus!
