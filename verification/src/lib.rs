//! Read-only queries against an Ethereum-compatible chain: token metadata
//! lookup and multi-wallet balance lookup for an ERC-20 style contract.

pub mod domain;
pub mod environment;
pub mod error;
pub mod router;
pub mod services;
