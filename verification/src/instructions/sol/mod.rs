//! Locks of the native currency.

pub mod initialize;
pub mod withdraw;
