//! Normalisation of native Aptos transactions into chain-agnostic records,
//! with the per-chain sync cursor and the decisions of the poll loop.

pub mod chain;
pub mod cursor;
pub mod decimal;
pub mod error;
pub mod model;
pub mod poll;
pub mod aptos;
pub mod transaction;
