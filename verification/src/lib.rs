//! Pcodec compression of fixed-width mini-block pages.
//!
//! A page of 16, 32 or 64 bit values is compressed as a whole by `pco` into
//! a single chunk with a single buffer, and read back from that buffer.

pub mod block;
pub mod bytes;
mod casts;
pub mod codec;
pub mod error;
pub mod laws;
pub mod pcodec;
pub mod streams;
pub mod text;
pub mod value;
