use vstd::prelude::*;

verus! {

/// Compression level variants
#[derive(Debug, Clone, Copy)]
pub enum CompressionLevel {
    /// Best compression level for the given compression algorithm
    Best,
    /// Default compression level for the given compression algorithm
    Default,
    /// Fastest compression level for the given compression algorithm
    Fastest,
    /// Specify a custom compression level, which will be clamped to the values
    /// accepted by the underlying compression library.
    Precise(i32),
}

/// `async_compression::Level`, which the encoders of that crate take. Its
/// content is opaque to the proofs: a value is only handed to an encoder.
#[verifier::external_type_specification]
#[verifier::external_body]
pub struct ExLevel(async_compression::Level);

/// Builds the variant of `async_compression::Level` that has the name of
/// `level`; `Precise` keeps its number, which each codec clamps to the range
/// that it accepts. Nothing is claimed of the value: the encoders alone read
/// it.
#[verifier::external_body]
pub(crate) fn codec_level(level: CompressionLevel) -> async_compression::Level {
    match level {
        CompressionLevel::Best => async_compression::Level::Best,
        CompressionLevel::Default => async_compression::Level::Default,
        CompressionLevel::Fastest => async_compression::Level::Fastest,
        CompressionLevel::Precise(quality) => async_compression::Level::Precise(quality),
    }
}

} // verus!
