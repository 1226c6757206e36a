//! A resizable heap buffer of slots, each vacant or holding one element,
//! together with the block primitives it is built on.
//!
//! A buffer owns its block outright. Its capacity is the number of slots in
//! the block; capacity zero means that no block is live. Element types that
//! occupy no storage never get a block at all.

pub mod raw;
