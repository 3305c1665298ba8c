use crate::error::Error;
use vstd::prelude::*;

verus! {

/// A compression strategy.
///
/// A strategy is described by what its two directions make of bytes. What
/// they make depends on the bytes alone, and of the strategy on what it was
/// made with: the same value is packed to the same bytes, and the same bytes
/// are unpacked to the same value.
pub trait CompressionStrategy {
    /// What `compress` makes of `data`: its packing, or `None` where it
    /// fails.
    spec fn packed(&self, data: Seq<u8>) -> Option<Seq<u8>>;

    /// What `decompress` makes of `packed`: the value packed in it, or `None`
    /// where it fails.
    spec fn unpacked(&self, packed: Seq<u8>) -> Option<Seq<u8>>;

    /// Whether `error` is an error with which `compress` fails on `data`.
    spec fn pack_error(&self, data: Seq<u8>, error: Error) -> bool;

    /// Whether `error` is an error with which `decompress` fails on `packed`.
    spec fn unpack_error(&self, packed: Seq<u8>, error: Error) -> bool;

    /// Compress binary data
    fn compress(&self, data: Vec<u8>) -> (r: Result<Vec<u8>, Error>)
        ensures
            match self.packed(data@) {
                Some(packed) => {
                    &&& r matches Ok(out)
                    &&& out@ == packed
                    &&& self.unpacked(packed) == Some(data@)
                },
                None => r matches Err(error) && self.pack_error(data@, error),
            },
    ;

    /// Decompress binary data
    fn decompress(&self, packed: Vec<u8>) -> (r: Result<Vec<u8>, Error>)
        ensures
            match self.unpacked(packed@) {
                Some(data) => r matches Ok(out) && out@ == data,
                None => r matches Err(error) && self.unpack_error(packed@, error),
            },
    ;
}

/// The contract of `compress`, as a relation: what `compress` of
/// `compressor` answers on `data`. Where the compressor
/// packs the value, the answer is the packing, and the packing is one that
/// the compressor unpacks to the value. Where it does not, the answer is an
/// error of the compressor.
pub open spec fn compress_ensures<T: CompressionStrategy + ?Sized>(
    compressor: &T,
    data: Seq<u8>,
    r: Result<Vec<u8>, Error>,
) -> bool {
    match compressor.packed(data) {
        Some(packed) => {
            &&& r matches Ok(out)
            &&& out@ == packed
            &&& compressor.unpacked(packed) == Some(data)
        },
        None => r matches Err(error) && compressor.pack_error(data, error),
    }
}

/// The contract of `decompress`, as a relation: what `decompress` of
/// `compressor` answers on `packed`. Where the bytes are
/// the packing of a value, the answer is the value. Where they are not, the
/// answer is an error of the compressor.
pub open spec fn decompress_ensures<T: CompressionStrategy + ?Sized>(
    compressor: &T,
    packed: Seq<u8>,
    r: Result<Vec<u8>, Error>,
) -> bool {
    match compressor.unpacked(packed) {
        Some(data) => r matches Ok(out) && out@ == data,
        None => r matches Err(error) && compressor.unpack_error(packed, error),
    }
}

/// An absent compressor passes values through unchanged, and never fails.
impl<T: CompressionStrategy> CompressionStrategy for Option<T> {
    open spec fn packed(&self, data: Seq<u8>) -> Option<Seq<u8>> {
        match self {
            Some(compressor) => compressor.packed(data),
            None => Some(data),
        }
    }

    open spec fn unpacked(&self, packed: Seq<u8>) -> Option<Seq<u8>> {
        match self {
            Some(compressor) => compressor.unpacked(packed),
            None => Some(packed),
        }
    }

    open spec fn pack_error(&self, data: Seq<u8>, error: Error) -> bool {
        match self {
            Some(compressor) => compressor.pack_error(data, error),
            None => false,
        }
    }

    open spec fn unpack_error(&self, packed: Seq<u8>, error: Error) -> bool {
        match self {
            Some(compressor) => compressor.unpack_error(packed, error),
            None => false,
        }
    }

    fn compress(&self, data: Vec<u8>) -> (r: Result<Vec<u8>, Error>) {
        match self {
            Some(compressor) => compressor.compress(data),
            None => Ok(data),
        }
    }

    fn decompress(&self, packed: Vec<u8>) -> (r: Result<Vec<u8>, Error>) {
        match self {
            Some(compressor) => compressor.decompress(packed),
            None => Ok(packed),
        }
    }
}

/// Decompressing what `compress` returned gives back the value that went in:
/// if `compress` answers `data` with the bytes `packed`, then `decompress`
/// answers those bytes with `data`, and with nothing else.
pub proof fn lemma_decompress_inverts_compress<T: CompressionStrategy>(
    compressor: T,
    data: Seq<u8>,
    packed: Vec<u8>,
    back: Result<Vec<u8>, Error>,
)
    requires
        compress_ensures(&compressor, data, Ok(packed)),
        decompress_ensures(&compressor, packed@, back),
    ensures
        back matches Ok(out) && out@ == data,
{
}

} // verus!
