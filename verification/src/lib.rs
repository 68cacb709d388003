//! An AES-128 circuit for a PLONK-style proof system with lookup
//! arguments: a shared tagged lookup table, per-operation constraint chips,
//! a key-expansion state machine and a ten-round encryption pipeline over
//! rotating column groups, together with the byte-level model of AES-128
//! they are proved against.

pub mod aes128;
pub mod cell;
pub mod chips;
pub mod cipher;
pub mod error;
pub mod halo2_api;
pub mod key_schedule;
pub mod model;
pub mod table;
pub mod utils;

pub use aes128::FixedAes128Config;
