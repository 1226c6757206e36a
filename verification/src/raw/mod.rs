//! Buffers with an explicit lifecycle: allocate, resize, release.

pub mod block;

pub mod buffer;
