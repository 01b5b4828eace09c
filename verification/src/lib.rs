//! A verified model of the LumenForge vault contracts: a single-asset,
//! owner-gated deposit/withdraw vault and a factory that deploys and indexes
//! vaults per owner. Every call is a transition on the contract's stored
//! values that also emits the host actions (authorization checks, token
//! transfers, events) the contract performs, in order.

pub mod vault;
pub mod factory;
pub mod vault_laws;
pub mod factory_laws;
