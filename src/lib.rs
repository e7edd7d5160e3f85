//! Translation of NFT collection descriptors between chains: the extended
//! class data that travels with an outgoing class, and the parameters that
//! instantiate a local collection contract for an incoming one.

pub mod address;
pub mod class_data;
pub mod error;
pub mod instantiate;
