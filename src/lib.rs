//! Persistent state of an account counter: a flag, an eager and a lazily
//! loaded counter, a per-account counter map and a fixed balance.
mod incrementer;
pub mod laws;
mod storage;

pub use incrementer::{wrap_add, Balance, Incrementer, IncrementerView};
pub use storage::AccountId;
