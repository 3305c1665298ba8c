use super::compression_level::{codec_level, CompressionLevel};
use crate::error::Error;
use crate::traits::CompressionStrategy;
use async_compression::futures::write::{GzipDecoder, GzipEncoder};
use futures_util::{AsyncWriteExt, FutureExt};
use vstd::prelude::*;

verus! {

/// What `async_compression::futures::write::GzipEncoder` makes of `data` at
/// the level `level`, when all of the data is written to the encoder and the
/// encoder is closed: the stream that comes out, or `None` where the encoder
/// reports an error. The encoder reads nothing but the two, so the same data
/// at the same level give the same answer.
pub uninterp spec fn gzip_encoded(data: Seq<u8>, level: CompressionLevel) -> Option<Seq<u8>>;

/// What `async_compression::futures::write::GzipDecoder` makes of the stream
/// `packed`, when all of it is written to the decoder and the decoder is
/// closed: the bytes that come out, or `None` where the decoder reports an
/// error. The decoder reads nothing but the stream, so the same stream gives
/// the same answer.
pub uninterp spec fn gzip_decoded(packed: Seq<u8>) -> Option<Seq<u8>>;

/// Packs `data` with `async_compression::futures::write::GzipEncoder`. The
/// encoder is made by `with_quality` at `level`, over a buffer in memory; the
/// data goes in by `write_all` and the stream is ended by `close`, both driven
/// by `now_or_never`, since a buffer in memory is always ready; `into_inner`
/// hands the buffer out. An error of the encoder is the result.
///
/// Claimed, and not proved: the result is what the encoder makes of `data`
/// at `level`, a stream or an error; and a stream that the encoder has made
/// is one that the decoder reads, to the end and without an error, as `data`.
#[verifier::external_body]
fn gzip_encode(data: &[u8], level: CompressionLevel) -> (r: Result<Vec<u8>, std::io::Error>)
    ensures
        match gzip_encoded(data@, level) {
            Some(stream) => r matches Ok(packed) && packed@ == stream,
            None => r is Err,
        },
        r matches Ok(packed) ==> gzip_decoded(packed@) == Some(data@),
{
    let mut encoder = GzipEncoder::with_quality(Vec::with_capacity(data.len()), codec_level(level));
    encoder.write_all(data).now_or_never().ok_or(std::io::ErrorKind::WouldBlock)??;
    encoder.close().now_or_never().ok_or(std::io::ErrorKind::WouldBlock)??;
    Ok(encoder.into_inner())
}

/// Unpacks `packed` with `async_compression::futures::write::GzipDecoder`. The
/// decoder is made by `new`, over a buffer in memory; the stream goes in by
/// `write_all` and is ended by `close`, both driven by `now_or_never`;
/// `into_inner` hands the buffer out. An error of the decoder is the result.
///
/// Claimed, and not proved: the result is what the decoder makes of
/// `packed`, the bytes or an error.
#[verifier::external_body]
fn gzip_decode(packed: &[u8]) -> (r: Result<Vec<u8>, std::io::Error>)
    ensures
        match gzip_decoded(packed@) {
            Some(bytes) => r matches Ok(data) && data@ == bytes,
            None => r is Err,
        },
{
    let mut decoder = GzipDecoder::new(Vec::with_capacity(packed.len()));
    decoder.write_all(packed).now_or_never().ok_or(std::io::ErrorKind::WouldBlock)??;
    decoder.close().now_or_never().ok_or(std::io::ErrorKind::WouldBlock)??;
    Ok(decoder.into_inner())
}

/// A Compressor using Gzip
#[derive(Debug)]
pub struct Gzip {
    level: CompressionLevel,
}

impl Gzip {
    /// The level at which this compressor packs.
    pub closed spec fn level(&self) -> CompressionLevel {
        self.level
    }

    /// Creates a new Gzip Compressor with the given compression level
    pub fn new(level: CompressionLevel) -> (gzip: Self)
        ensures
            gzip.level() == level,
    {
        Gzip { level }
    }
}

impl Default for Gzip {
    /// Creates a new Gzip Compressor with the default compression level
    fn default() -> (gzip: Self)
        ensures
            gzip.level() == CompressionLevel::Default,
    {
        Gzip { level: CompressionLevel::Default }
    }
}

/// The compressor packs as its encoder does at its level, and unpacks as
/// its decoder does. An error of either direction is an [`Error::IoError`]
/// that holds the error of the codec.
impl CompressionStrategy for Gzip {
    open spec fn packed(&self, data: Seq<u8>) -> Option<Seq<u8>> {
        gzip_encoded(data, self.level())
    }

    open spec fn unpacked(&self, packed: Seq<u8>) -> Option<Seq<u8>> {
        gzip_decoded(packed)
    }

    open spec fn pack_error(&self, data: Seq<u8>, error: Error) -> bool {
        error is IoError
    }

    open spec fn unpack_error(&self, packed: Seq<u8>, error: Error) -> bool {
        error is IoError
    }

    fn compress(&self, data: Vec<u8>) -> (r: Result<Vec<u8>, Error>) {
        Error::codec_answer(gzip_encode(data.as_slice(), self.level))
    }

    fn decompress(&self, packed: Vec<u8>) -> (r: Result<Vec<u8>, Error>) {
        Error::codec_answer(gzip_decode(packed.as_slice()))
    }
}

} // verus!
