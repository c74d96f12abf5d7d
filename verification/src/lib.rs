//! Comparison of a locally built contract artifact with the code deployed on a chain.

pub mod args;
pub mod binding;
pub mod contract;
pub mod encoding;
pub mod error;
pub mod evm;
pub mod json;
pub mod networks;
pub mod stellar;
pub mod text;
pub mod wasm;
