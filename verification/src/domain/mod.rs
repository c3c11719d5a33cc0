//! Values handed back to callers of the facade.

pub mod account;
pub mod address;
pub mod amount;
pub mod token;
