use crate::error::Error;
use crate::noop::Noop;
use crate::traits::CompressionStrategy;
use vstd::prelude::*;

verus! {

/// A compressor that may be absent: without one, values pass through
/// unchanged.
#[derive(Debug)]
pub enum MaybeCompressor<T: CompressionStrategy> {
    /// Values are packed by this compressor.
    Compressor(T),
    /// Values are left as they are.
    Passthrough,
}

impl<T: CompressionStrategy> CompressionStrategy for MaybeCompressor<T> {
    open spec fn packed(&self, data: Seq<u8>) -> Option<Seq<u8>> {
        match self {
            MaybeCompressor::Compressor(compressor) => compressor.packed(data),
            MaybeCompressor::Passthrough => Some(data),
        }
    }

    open spec fn unpacked(&self, packed: Seq<u8>) -> Option<Seq<u8>> {
        match self {
            MaybeCompressor::Compressor(compressor) => compressor.unpacked(packed),
            MaybeCompressor::Passthrough => Some(packed),
        }
    }

    open spec fn pack_error(&self, data: Seq<u8>, error: Error) -> bool {
        match self {
            MaybeCompressor::Compressor(compressor) => compressor.pack_error(data, error),
            MaybeCompressor::Passthrough => false,
        }
    }

    open spec fn unpack_error(&self, packed: Seq<u8>, error: Error) -> bool {
        match self {
            MaybeCompressor::Compressor(compressor) => compressor.unpack_error(packed, error),
            MaybeCompressor::Passthrough => false,
        }
    }

    fn compress(&self, data: Vec<u8>) -> (r: Result<Vec<u8>, Error>) {
        match self {
            MaybeCompressor::Compressor(compressor) => compressor.compress(data),
            MaybeCompressor::Passthrough => Noop.compress(data),
        }
    }

    fn decompress(&self, packed: Vec<u8>) -> (r: Result<Vec<u8>, Error>) {
        match self {
            MaybeCompressor::Compressor(compressor) => compressor.decompress(packed),
            MaybeCompressor::Passthrough => Noop.decompress(packed),
        }
    }
}

impl MaybeCompressor<Noop> {
    /// The compressor that passes every value through.
    pub fn noop() -> (compressor: Self)
        ensures
            compressor is Passthrough,
    {
        MaybeCompressor::<Noop>::Passthrough
    }
}

} // verus!
