//! The instructions: lock and withdraw, for the native currency and for
//! tokens.

pub mod sol;
pub mod spl;
