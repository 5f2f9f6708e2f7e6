//! A smart-contract execution actor: deploys Ethereum-style bytecode
//! contracts, invokes them with opaque call data, returns a deployed
//! contract's code reference, and lets a reserved system identity inspect a
//! single persistent storage slot.
//!
//! The bytecode execution engine itself is outside this library; every
//! dispatcher decision is verified for every outcome the engine could
//! produce, which enters as an explicit [`engine::Engine`] value.

pub mod actor;
pub mod bytecode;
pub mod codec;
pub mod engine;
pub mod error;
pub mod host;
pub mod state;
pub mod store;
pub mod system;
pub mod trie;
pub mod u256;
