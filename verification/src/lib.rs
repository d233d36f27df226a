//! Two FRAME-style pallets written as verified Rust.
//!
//! `pallet` and its off-chain worker keep a list of ETH prices in USD
//! cents.  Signed transactions append to it; every tenth block the worker
//! fetches a quote from CryptoCompare and one from CoinMarketCap, averages
//! them and submits the average as a signed transaction.  Every decision of
//! the worker is a verified step function (`worker`); the host that runs it
//! performs the HTTP requests, the JSON decoding and the signing.
//!
//! `poe` is a proof-of-existence pallet: accounts claim byte strings, and
//! owners revoke or transfer their claims.

pub mod pallet;
pub mod response;
pub mod offchain;
pub mod worker;
pub mod poe;
