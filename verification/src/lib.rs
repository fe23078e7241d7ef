//! Hashing and compression primitives behind a flat, buffer-in / buffer-out
//! boundary.
//!
//! Every operation borrows an input view, fills an output slot
//! ([`SizedByteArray`]) and reports success as a boolean. The digest and codec
//! algorithms themselves come from the `md5`, `sha1` and `flate2` crates; this
//! crate states what is handed to them, what is taken from them and what
//! becomes of the output slot.

pub mod buffer;
pub mod codec;
pub mod digest;
pub mod gzip;
pub mod zlib;

pub use crate::buffer::SizedByteArray;
pub use crate::digest::{mirai_hash_md5, mirai_hash_sh1};
pub use crate::gzip::{mirai_compression_gzip, mirai_compression_ungzip};
pub use crate::zlib::{mirai_compression_deflate, mirai_compression_infalte};
