//! Ledger recording and swap routing for a payment gateway.
//!
//! Transactions are written as blobs to a data-availability network under a
//! namespace derived from the user's address, indexed by inclusion height, and
//! read back by replaying the indexed heights. Token swaps are planned as a
//! sequence of chain calls whose decisions are made here.

pub mod amount;
pub mod blob;
pub mod dto;
pub mod encoding;
pub mod history;
pub mod index;
pub mod namespace;
pub mod payment;
pub mod record;
pub mod route;
pub mod submission;
pub mod swap;
pub mod wallet;
