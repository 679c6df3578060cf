//! A decoding cursor for word-aligned, big-endian wire messages.
//!
//! [`reader::Reader`] walks an in-memory byte buffer front to back, counts the
//! bytes consumed since the last alignment point and skips the padding that
//! brings a record up to a four-byte boundary. Types that know their own
//! encoding implement [`reader::Readable`] on top of it.
//!
//! Contracts are written over [`state::ReaderState`], the mathematical picture
//! of a cursor; [`laws`] proves what follows from them.

pub mod laws;
pub mod reader;
pub mod state;
