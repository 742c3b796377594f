//! The requests and responses that the gateway exchanges with its callers.
use vstd::prelude::*;

verus! {

/// A request to pay out fiat to a wallet.
#[derive(Debug, Clone, PartialEq, Eq)]
pub struct FiatTransactionRequestDTO {
    pub amount: String,
    pub chain: String,
    pub destination_address: String,
}

/// The receipt of a fiat payout.
#[derive(Debug, Clone, PartialEq, Eq)]
pub struct FiatTransactionResponseDTO {
    pub receipient_address: String,
    pub amount: String,
    pub timestamp: String,
}

/// A request to transfer tokens.
#[derive(Debug, Clone, PartialEq, Eq)]
pub struct CryptoTransactionRequestDTO {
    pub sender_private_key: String,
    pub recipient_address: String,
    pub amount: String,
    pub chain: String,
}

/// The receipt of a token transfer.
#[derive(Debug, Clone, PartialEq, Eq)]
pub struct CryptoTransactionResponseDTO {
    pub transaction_hash: String,
    pub sender_address: String,
    pub receipient_address: String,
    pub amount: String,
    pub timestamp: String,
}

/// A request for a wallet's balance of a token.
#[derive(Debug, Clone, PartialEq, Eq)]
pub struct CryptoBalanceRequestDTO {
    pub signer_private_key: String,
    pub chain: String,
}

/// A wallet's balance, formatted with the token's decimals.
#[derive(Debug, Clone, PartialEq, Eq)]
pub struct CryptoBalanceResponseDTO {
    pub balance: String,
}

/// A request for the address of a signer key.
#[derive(Debug, Clone, PartialEq, Eq)]
pub struct CryptoWalletRequestDTO {
    pub signer_private_key: String,
}

/// The address of a signer key.
#[derive(Debug, Clone, PartialEq, Eq)]
pub struct CryptoWalletResponseDTO {
    pub address: String,
}

/// A newly created wallet.
#[derive(Debug, Clone, PartialEq, Eq)]
pub struct CryptoWalletCreationResponseDTO {
    pub address: String,
    pub private_key: String,
}

/// A request to swap an amount of one token into another.
#[derive(Debug, Clone, PartialEq, Eq)]
pub struct CryptoSwapRequestDTO {
    pub from_token: String,
    pub to_token: String,
    pub amount: String,
    pub signer_private_key: String,
}

/// The receipt of a submitted swap.
#[derive(Debug, Clone, PartialEq, Eq)]
pub struct CryptoSwapResponseDTO {
    pub transaction_hash: String,
    pub address: String,
    pub amount_in: String,
    pub from_token: String,
    pub to_token: String,
    pub timestamp: String,
}

/// A request for an address's transaction history.
#[derive(Debug, Clone, PartialEq, Eq)]
pub struct TransactionHistoryRequestDTO {
    pub address: String,
}

/// The details of a processed transfer.
#[derive(Debug, Clone, PartialEq, Eq)]
pub struct ProcessCryptoTransactionResponseDTO {
    pub transaction_hash: String,
    pub sender_address: String,
    pub recipient_address: String,
    pub amount: String,
    pub chain: String,
    pub timestamp: String,
}

/// The details of a processed swap.
#[derive(Debug, Clone, PartialEq, Eq)]
pub struct ProcessCryptoSwapResponseDTO {
    pub transaction_hash: String,
    pub address: String,
    pub amount_in: String,
    pub from_token: String,
    pub to_token: String,
    pub timestamp: String,
}

} // verus!
