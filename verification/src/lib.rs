//! A lookahead and put-back buffer in front of any iterator.
//!
//! [`PutBackPeekMore`] stages values of the iterator it wraps in a fixed
//! array, so that a consumer can look at the next few values before taking
//! them, and can hand a value back to be produced again.
//!
//! - [`buffer`] holds the buffer and the contracts of its operations.
//! - [`lookahead`] holds the model that those contracts are stated over, and
//!   the laws proved of it.
//! - [`cursor`] holds the index type that keeps the buffer's cursor inside
//!   its staging array.

pub mod buffer;
pub mod cursor;
pub mod lookahead;

pub use buffer::PutBackPeekMore;
