//! On-chain logic of a credential-issuance ledger.
//!
//! The ledger contract mints non-fungible certificate and user records,
//! keeps a fungible reward-token balance, and acquires its own collection
//! identifier through a two-phase asynchronous handshake with the
//! platform's token-issuing authority.  Everything here is the contract's
//! own decision logic: callers (a command-line driver, the network layer)
//! perform the asynchronous requests that the contract hands back as
//! explicit actions, and feed the responses in as explicit events.

use vstd::prelude::*;

pub mod contract;
pub mod crypto;
pub mod laws;
pub mod rewards;
pub mod token;

verus! {

/// The number of units minted for each non-fungible record.
pub const NFT_AMOUNT: u32 = 1;

} // verus!
