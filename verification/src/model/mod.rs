//! Typed request and response models of the Sequence Platform API. `common`
//! holds the pagination and response envelopes and the cents alias, `error`
//! the typed API error.

pub mod account;
pub mod common;
pub mod error;
pub mod rule;
pub mod transfer;
