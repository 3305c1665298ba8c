use crate::error::Error;
use crate::traits::CompressionStrategy;
use vstd::prelude::*;

verus! {

/// A compressor that leaves every value as it is.
/// It is the compressor type of a cache that is built without compression.
#[derive(Debug)]
pub struct Noop;

impl Default for Noop {
    fn default() -> (noop: Self)
        ensures
            noop == Noop,
    {
        Noop
    }
}

/// Every value is its own packing, and neither direction fails.
impl CompressionStrategy for Noop {
    open spec fn packed(&self, data: Seq<u8>) -> Option<Seq<u8>> {
        Some(data)
    }

    open spec fn unpacked(&self, packed: Seq<u8>) -> Option<Seq<u8>> {
        Some(packed)
    }

    open spec fn pack_error(&self, data: Seq<u8>, error: Error) -> bool {
        false
    }

    open spec fn unpack_error(&self, packed: Seq<u8>, error: Error) -> bool {
        false
    }

    fn compress(&self, data: Vec<u8>) -> (r: Result<Vec<u8>, Error>)
        ensures
            r matches Ok(packed) && packed == data,
    {
        Ok(data)
    }

    fn decompress(&self, packed: Vec<u8>) -> (r: Result<Vec<u8>, Error>)
        ensures
            r matches Ok(data) && data == packed,
    {
        Ok(packed)
    }
}

} // verus!
