//! Multi-threaded lazy evaluation.
//!
//! A [`Thunk`] is a cell holding a deferred computation that is run at
//! most once, on first access, and is safe to share across threads.

pub mod evaluate;
pub mod thunk;

pub use evaluate::Evaluate;
pub use thunk::lazy;
pub use thunk::Thunk;
