//! Locks of a fungible token.

pub mod initialize;
pub mod withdraw;
