//! The gateway's request routing table.
use vstd::prelude::*;

verus! {

/// The operations that the gateway serves.
#[derive(Debug, Clone, Copy, PartialEq, Eq, Structural)]
pub enum Route {
    CryptoBalance,
    CryptoWallet,
    TransactionHistory,
    FiatTransaction,
    CryptoTransaction,
    CryptoWalletCreation,
    CryptoSwap,
    CryptoProcess,
    CryptoSwapProcess,
    NotFound,
}

/// The operation that a request method and path select.
pub open spec fn route_for(method: Seq<char>, path: Seq<char>) -> Route {
    if method != "POST"@ {
        Route::NotFound
    } else if path == "/crypto/balance"@ {
        Route::CryptoBalance
    } else if path == "/crypto/wallet"@ {
        Route::CryptoWallet
    } else if path == "/history/transaction"@ {
        Route::TransactionHistory
    } else if path == "/fiat/transaction"@ {
        Route::FiatTransaction
    } else if path == "/crypto/transaction"@ {
        Route::CryptoTransaction
    } else if path == "/crypto/creation/wallet"@ {
        Route::CryptoWalletCreation
    } else if path == "/crypto/swap"@ {
        Route::CryptoSwap
    } else if path == "/crypto/process"@ {
        Route::CryptoProcess
    } else if path == "/crypto/swapProcess"@ {
        Route::CryptoSwapProcess
    } else {
        Route::NotFound
    }
}

/// Selects the operation for a request; every operation is a `POST`, and
/// anything else is not found.
pub fn route_of(method: &str, path: &str) -> (r: Route)
    ensures
        r == route_for(method@, path@),
{
    let method = String::from_str(method);
    let path = String::from_str(path);
    if method != String::from_str("POST") {
        Route::NotFound
    } else if path == String::from_str("/crypto/balance") {
        Route::CryptoBalance
    } else if path == String::from_str("/crypto/wallet") {
        Route::CryptoWallet
    } else if path == String::from_str("/history/transaction") {
        Route::TransactionHistory
    } else if path == String::from_str("/fiat/transaction") {
        Route::FiatTransaction
    } else if path == String::from_str("/crypto/transaction") {
        Route::CryptoTransaction
    } else if path == String::from_str("/crypto/creation/wallet") {
        Route::CryptoWalletCreation
    } else if path == String::from_str("/crypto/swap") {
        Route::CryptoSwap
    } else if path == String::from_str("/crypto/process") {
        Route::CryptoProcess
    } else if path == String::from_str("/crypto/swapProcess") {
        Route::CryptoSwapProcess
    } else {
        Route::NotFound
    }
}

} // verus!
