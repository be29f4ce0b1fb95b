//! Short-term loans that seed a liquidity pool on an external AMM, with a
//! pooled treasury that funds the principal and collects the fees.
//!
//! The library holds the records, the checks and the settlement arithmetic.
//! Token transfers, the AMM calls and the clock are performed by the caller,
//! which hands the resulting plain values to the functions here.

pub mod error;
pub mod key;
pub mod state;
pub mod vault;
pub mod issuance;
pub mod settlement;
pub mod laws;
