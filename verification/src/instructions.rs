//! Instruction handlers: one module per vault operation.

pub mod create_SVE;
pub mod lock;
pub mod mint_from_underlying;
pub mod mint_from_yi;
