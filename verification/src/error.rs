//! Typed rejections. Every operation either applies in full or returns one
//! of these and leaves the records it was given untouched.

use vstd::prelude::*;

verus! {

/// Why a custody-vault operation was rejected.
#[derive(Clone, Copy, Debug, PartialEq, Eq, Structural)]
pub enum ArteonError {
    VaultNotInitialized,
    VaultAlreadyInitialized,
    InsufficientTokenBalance,
    BuyoutVoteNotActive,
    BuyoutVoteExpired,
    QuorumNotReached,
    InvalidBuyoutPrice,
    NftNotInVault,
    UserAlreadyVoted,
    InvalidRentDuration,
    NftCurrentlyRented,
    RentPeriodNotExpired,
    InvalidFractionAmount,
    VaultLockedForBuyout,
    ArtistRoyaltyExceedsMaximum,
    PlatformFeeExceedsMaximum,
    InvalidTokenMint,
    InvalidTokenAccount,
    InvalidNftMint,
    InvalidNftAccount,
    UnauthorizedAccess,
    InvalidMetadata,
    VaultClosed,
}

impl ArteonError {
    /// The text shown to a caller for this rejection.
    pub open spec fn message_text(self) -> Seq<char> {
        match self {
            ArteonError::VaultNotInitialized => "Vault is not initialized"@,
            ArteonError::VaultAlreadyInitialized => "Vault is already initialized"@,
            ArteonError::InsufficientTokenBalance => "Insufficient token balance"@,
            ArteonError::BuyoutVoteNotActive => "Buyout vote is not active"@,
            ArteonError::BuyoutVoteExpired => "Buyout vote has expired"@,
            ArteonError::QuorumNotReached => "Quorum not reached for buyout"@,
            ArteonError::InvalidBuyoutPrice => "Invalid buyout price"@,
            ArteonError::NftNotInVault => "NFT is not in vault"@,
            ArteonError::UserAlreadyVoted => "User already voted"@,
            ArteonError::InvalidRentDuration => "Invalid rent duration"@,
            ArteonError::NftCurrentlyRented => "NFT is currently rented"@,
            ArteonError::RentPeriodNotExpired => "Rent period not expired"@,
            ArteonError::InvalidFractionAmount => "Invalid fraction amount"@,
            ArteonError::VaultLockedForBuyout => "Vault is locked for buyout"@,
            ArteonError::ArtistRoyaltyExceedsMaximum => "Artist royalty exceeds maximum"@,
            ArteonError::PlatformFeeExceedsMaximum => "Platform fee exceeds maximum"@,
            ArteonError::InvalidTokenMint => "Invalid token mint"@,
            ArteonError::InvalidTokenAccount => "Invalid token account"@,
            ArteonError::InvalidNftMint => "Invalid NFT mint"@,
            ArteonError::InvalidNftAccount => "Invalid NFT account"@,
            ArteonError::UnauthorizedAccess => "Unauthorized access"@,
            ArteonError::InvalidMetadata => "Invalid metadata"@,
            ArteonError::VaultClosed => "Vault is closed"@,
        }
    }

    /// Returns the text shown to a caller for this rejection.
    pub fn message(&self) -> (text: &'static str)
        ensures
            text@ == self.message_text(),
    {
        match self {
            ArteonError::VaultNotInitialized => "Vault is not initialized",
            ArteonError::VaultAlreadyInitialized => "Vault is already initialized",
            ArteonError::InsufficientTokenBalance => "Insufficient token balance",
            ArteonError::BuyoutVoteNotActive => "Buyout vote is not active",
            ArteonError::BuyoutVoteExpired => "Buyout vote has expired",
            ArteonError::QuorumNotReached => "Quorum not reached for buyout",
            ArteonError::InvalidBuyoutPrice => "Invalid buyout price",
            ArteonError::NftNotInVault => "NFT is not in vault",
            ArteonError::UserAlreadyVoted => "User already voted",
            ArteonError::InvalidRentDuration => "Invalid rent duration",
            ArteonError::NftCurrentlyRented => "NFT is currently rented",
            ArteonError::RentPeriodNotExpired => "Rent period not expired",
            ArteonError::InvalidFractionAmount => "Invalid fraction amount",
            ArteonError::VaultLockedForBuyout => "Vault is locked for buyout",
            ArteonError::ArtistRoyaltyExceedsMaximum => "Artist royalty exceeds maximum",
            ArteonError::PlatformFeeExceedsMaximum => "Platform fee exceeds maximum",
            ArteonError::InvalidTokenMint => "Invalid token mint",
            ArteonError::InvalidTokenAccount => "Invalid token account",
            ArteonError::InvalidNftMint => "Invalid NFT mint",
            ArteonError::InvalidNftAccount => "Invalid NFT account",
            ArteonError::UnauthorizedAccess => "Unauthorized access",
            ArteonError::InvalidMetadata => "Invalid metadata",
            ArteonError::VaultClosed => "Vault is closed",
        }
    }
}

/// Why an operation on a counter or on a listed vault was rejected.
#[derive(Clone, Copy, Debug, PartialEq, Eq, Structural)]
pub enum ErrorCode {
    CannotDecrementBelowZero,
    UnauthorizedAccess,
    VaultAlreadyFractionalized,
    VaultNotFractionalized,
    InvalidOfferAmount,
}

impl ErrorCode {
    /// The text shown to a caller for this rejection.
    pub open spec fn message_text(self) -> Seq<char> {
        match self {
            ErrorCode::CannotDecrementBelowZero => "Cannot decrement counter below zero"@,
            ErrorCode::UnauthorizedAccess =>
                "Unauthorized access. Only the vault authority can perform this action."@,
            ErrorCode::VaultAlreadyFractionalized => "Vault has already been fractionalized."@,
            ErrorCode::VaultNotFractionalized => "Vault has not been fractionalized."@,
            ErrorCode::InvalidOfferAmount =>
                "Invalid offer amount. Offer amount must be greater than zero."@,
        }
    }

    /// Returns the text shown to a caller for this rejection.
    pub fn message(&self) -> (text: &'static str)
        ensures
            text@ == self.message_text(),
    {
        match self {
            ErrorCode::CannotDecrementBelowZero => "Cannot decrement counter below zero",
            ErrorCode::UnauthorizedAccess =>
                "Unauthorized access. Only the vault authority can perform this action.",
            ErrorCode::VaultAlreadyFractionalized => "Vault has already been fractionalized.",
            ErrorCode::VaultNotFractionalized => "Vault has not been fractionalized.",
            ErrorCode::InvalidOfferAmount =>
                "Invalid offer amount. Offer amount must be greater than zero.",
        }
    }
}

} // verus!
