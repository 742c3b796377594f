//! The payload of a fiat payout request to the payment provider.
use vstd::prelude::*;

verus! {

/// The HTTP method of a provider request.
#[derive(Debug, Clone, Copy, PartialEq, Eq, Structural)]
pub enum RequestMethod {
    POST,
    GET,
}

/// Where a payout's funds come from.
#[derive(Debug, Clone, PartialEq, Eq)]
pub struct Source {
    pub source_type: String,
    pub id: String,
}

/// An amount in a currency.
#[derive(Debug, Clone, PartialEq, Eq)]
pub struct Amount {
    pub amount: String,
    pub currency: String,
}

/// Where a payout's funds go.
#[derive(Debug, Clone, PartialEq, Eq)]
pub struct Destination {
    pub destination_type: String,
    pub address: String,
    pub chain: String,
}

/// A payment method of the provider.
#[derive(Debug, Clone, PartialEq, Eq)]
pub struct PaymentMethods {
    pub method_type: String,
    pub chain: String,
}

/// A transfer request to the payment provider.
#[derive(Debug, Clone, PartialEq, Eq)]
pub struct TransferRequest {
    pub idempotency_key: String,
    pub source: Source,
    pub amount: Amount,
    pub destination: Destination,
}

impl TransferRequest {
    /// A payout of `amount` US dollars from the master wallet to
    /// `destination_address` on `chain`, under the given idempotency key.
    pub fn payout(
        master_wallet_id: &str,
        amount: &str,
        chain: &str,
        destination_address: &str,
        idempotency_key: &str,
    ) -> (r: TransferRequest)
        ensures
            r.idempotency_key@ == idempotency_key@,
            r.source.source_type@ == "wallet"@,
            r.source.id@ == master_wallet_id@,
            r.amount.amount@ == amount@,
            r.amount.currency@ == "USD"@,
            r.destination.destination_type@ == "blockchain"@,
            r.destination.address@ == destination_address@,
            r.destination.chain@ == chain@,
    {
        TransferRequest {
            idempotency_key: String::from_str(idempotency_key),
            source: Source {
                source_type: String::from_str("wallet"),
                id: String::from_str(master_wallet_id),
            },
            amount: Amount { amount: String::from_str(amount), currency: String::from_str("USD") },
            destination: Destination {
                destination_type: String::from_str("blockchain"),
                address: String::from_str(destination_address),
                chain: String::from_str(chain),
            },
        }
    }
}

} // verus!
