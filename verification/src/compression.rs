//! Codecs that pack values before a strategy stores them.

pub mod brotli_compressor;
pub mod compression_level;
pub mod gzip_compressor;
pub mod maybe_compressor;
pub mod zstd_compressor;

pub use crate::noop::Noop;
pub use brotli_compressor::Brotli;
pub use compression_level::CompressionLevel;
pub use gzip_compressor::Gzip;
pub use maybe_compressor::MaybeCompressor;
pub use zstd_compressor::Zstd;

use vstd::prelude::*;

verus! {

/// A no-op compression strategy.
pub const NO_COMPRESSION: Option<Noop> = None;

} // verus!
