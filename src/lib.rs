//! Two-token pool swap routing for a weighted geometric market maker.
//!
//! The library decides which side of a pool a trade sells, hands out the
//! reserves that the swap formula reads, and puts the new reserves back on
//! the right sides. Reserves are of any copyable type `R`, so the numeric
//! representation is chosen by the caller.

pub mod error;
pub mod pool;

pub use error::SwapError;
pub use pool::{select_side, Pool, Side, SwapResult, Trade};
