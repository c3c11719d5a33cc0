//! The chain-facing side of the facade.

pub mod blockchain_service;
pub mod ethereum;
pub mod outcome;
pub mod validation_service;
