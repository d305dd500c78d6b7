//! A bridge between hierarchical account names and the 160-bit addresses of
//! the Aurora engine.
//!
//! The crate derives and formats addresses, builds the payloads of the four
//! engine operations, keeps the write-once cache that maps token accounts to
//! token addresses, and decides what every entry point and every callback of
//! the bridge contract does. It performs no host call itself: each operation
//! takes the facts it needs as plain values and hands back a description of
//! the call to schedule.
pub mod abi;
pub mod address;
pub mod aurora;
pub mod cache;
pub mod contract;
pub mod error;
pub mod hash;
pub mod hexcodec;
pub mod word;
