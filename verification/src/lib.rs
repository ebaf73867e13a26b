//! Owning pointers with a pluggable disposal strategy.
//!
//! A [`Unique`] owns one non-null [`Pointer`] together with a [`Deleter`].
//! The pointer leaves its owner in one of two ways: `release` hands it back
//! untouched, `dispose` hands it to the deleter. Nothing else ever reaches the
//! deleter, so each pointer is disposed of at most once, and exactly once
//! where `dispose` is called.
//!
//! Addresses are plain `usize` values. A [`Pointer`] pairs an address with the
//! access to memory that came with it, if any: a pointer made from a bare
//! address leads nowhere, one made from a reference or a `Box` leads to its
//! payload.

pub mod deleter;
pub mod pointer;
pub mod unique;

pub use deleter::{boxed_deleter, Deleter, FnDeleter, GlobalDeleter};
pub use pointer::{Origin, Pointer};
pub use unique::{Global, Unique};
