use bincache::compression::{
    Brotli, CompressionLevel, Gzip, MaybeCompressor, Noop, Zstd, NO_COMPRESSION,
};
use bincache::utils::create_arb_data;
use bincache::{CompressionStrategy, Error};

fn round_trip<C: CompressionStrategy>(compressor: &C, data: &[u8]) -> Vec<u8> {
    let packed = compressor.compress(data.to_vec()).unwrap();
    compressor.decompress(packed).unwrap()
}

#[test]
fn zstd_compression_restores_the_value() {
    let data = create_arb_data(1024);
    let zstd = Zstd::default();
    let compressed = zstd.compress(data.clone()).unwrap();
    assert_ne!(compressed, data);
    assert!(compressed.len() < data.len());
    // a Zstandard frame starts with its magic number
    assert_eq!(&compressed[..4], &[0x28, 0xb5, 0x2f, 0xfd]);
    let decompressed = zstd.decompress(compressed).unwrap();
    assert_eq!(data, decompressed);
}

#[test]
fn gzip_compression_restores_the_value() {
    let data = create_arb_data(1024);
    let gzip = Gzip::default();
    let compressed = gzip.compress(data.clone()).unwrap();
    assert_ne!(compressed, data);
    assert!(compressed.len() < data.len());
    // a gzip member starts with its two magic bytes and the deflate method
    assert_eq!(&compressed[..3], &[0x1f, 0x8b, 0x08]);
    let decompressed = gzip.decompress(compressed).unwrap();
    assert_eq!(data, decompressed);
}

#[test]
fn brotli_compression_restores_the_value() {
    let data = create_arb_data(1024);
    let brotli = Brotli::default();
    let compressed = brotli.compress(data.clone()).unwrap();
    assert_ne!(compressed, data);
    assert!(compressed.len() < data.len());
    let decompressed = brotli.decompress(compressed).unwrap();
    assert_eq!(data, decompressed);
}

#[test]
fn noop_compression_leaves_the_value_alone() {
    let data = create_arb_data(1024);
    let noop = Noop;
    let compressed = noop.compress(data.clone()).unwrap();
    assert_eq!(compressed, data);
    let decompressed = noop.decompress(compressed).unwrap();
    assert_eq!(data, decompressed);
}

#[test]
fn every_codec_restores_the_empty_value() {
    let empty: Vec<u8> = Vec::new();
    assert_eq!(round_trip(&Zstd::default(), &empty), empty);
    assert_eq!(round_trip(&Gzip::default(), &empty), empty);
    assert_eq!(round_trip(&Brotli::default(), &empty), empty);
    assert_eq!(round_trip(&Noop, &empty), empty);
    // the packing of nothing is not nothing: each codec frames its stream
    assert!(!Zstd::default().compress(Vec::new()).unwrap().is_empty());
    assert!(!Gzip::default().compress(Vec::new()).unwrap().is_empty());
    assert!(!Brotli::default().compress(Vec::new()).unwrap().is_empty());
}

#[test]
fn every_codec_restores_a_single_byte_and_binary_data() {
    let one = vec![0u8];
    let mut all: Vec<u8> = Vec::new();
    for round in 0..4usize {
        for byte in 0..=255u8 {
            all.push(byte.wrapping_mul(round as u8 + 1));
        }
    }
    for data in [one, all] {
        assert_eq!(round_trip(&Zstd::default(), &data), data);
        assert_eq!(round_trip(&Gzip::default(), &data), data);
        assert_eq!(round_trip(&Brotli::default(), &data), data);
    }
}

#[test]
fn every_level_restores_the_value() {
    let data = create_arb_data(4096);
    let levels = [
        CompressionLevel::Best,
        CompressionLevel::Default,
        CompressionLevel::Fastest,
        CompressionLevel::Precise(3),
        // out of every codec's range: the codecs clamp it
        CompressionLevel::Precise(1000),
        CompressionLevel::Precise(-1000),
    ];
    for level in levels {
        assert_eq!(round_trip(&Zstd::new(level), &data), data);
        assert_eq!(round_trip(&Gzip::new(level), &data), data);
        assert_eq!(round_trip(&Brotli::new(level), &data), data);
    }
}

#[test]
fn a_stream_of_one_level_is_read_at_any_level() {
    let data = create_arb_data(20000);
    let fast = Zstd::new(CompressionLevel::Fastest).compress(data.clone()).unwrap();
    let best = Zstd::new(CompressionLevel::Best).compress(data.clone()).unwrap();
    assert_eq!(Zstd::new(CompressionLevel::Best).decompress(fast).unwrap(), data);
    assert_eq!(Zstd::new(CompressionLevel::Fastest).decompress(best).unwrap(), data);
    let fast = Gzip::new(CompressionLevel::Fastest).compress(data.clone()).unwrap();
    assert_eq!(Gzip::new(CompressionLevel::Precise(9)).decompress(fast).unwrap(), data);
    let fast = Brotli::new(CompressionLevel::Fastest).compress(data.clone()).unwrap();
    assert_eq!(Brotli::new(CompressionLevel::Best).decompress(fast).unwrap(), data);
}

#[test]
fn bytes_that_pack_nothing_are_refused() {
    let garbage = b"this is no compressed stream at all".to_vec();
    assert!(matches!(Zstd::default().decompress(garbage.clone()), Err(Error::IoError(_))));
    assert!(matches!(Gzip::default().decompress(garbage.clone()), Err(Error::IoError(_))));
    // a stream that stops early is refused too
    let mut cut = Zstd::default().compress(create_arb_data(1024)).unwrap();
    cut.truncate(cut.len() / 2);
    assert!(Zstd::default().decompress(cut).is_err());
    let mut cut = Gzip::default().compress(create_arb_data(1024)).unwrap();
    cut.truncate(cut.len() / 2);
    assert!(Gzip::default().decompress(cut).is_err());
    let mut cut = Brotli::default().compress(create_arb_data(1024)).unwrap();
    cut.truncate(cut.len() / 2);
    assert!(Brotli::default().decompress(cut).is_err());
}

#[test]
fn a_codec_does_not_read_the_stream_of_another() {
    let data = create_arb_data(1024);
    let zstd = Zstd::default().compress(data.clone()).unwrap();
    let gzip = Gzip::default().compress(data.clone()).unwrap();
    assert!(Gzip::default().decompress(zstd).is_err());
    assert!(Zstd::default().decompress(gzip).is_err());
}

#[test]
fn an_absent_compressor_passes_values_through() {
    let data = create_arb_data(300);
    let none: Option<Zstd> = None;
    assert_eq!(none.compress(data.clone()).unwrap(), data);
    assert_eq!(none.decompress(data.clone()).unwrap(), data);
    assert_eq!(NO_COMPRESSION.compress(data.clone()).unwrap(), data);
    let some = Some(Zstd::default());
    let packed = some.compress(data.clone()).unwrap();
    assert_ne!(packed, data);
    assert_eq!(some.decompress(packed).unwrap(), data);
}

#[test]
fn maybe_compressor_packs_or_passes_through() {
    let data = create_arb_data(300);
    let passthrough = MaybeCompressor::noop();
    assert!(matches!(passthrough, MaybeCompressor::Passthrough));
    assert_eq!(passthrough.compress(data.clone()).unwrap(), data);
    assert_eq!(passthrough.decompress(data.clone()).unwrap(), data);
    let gzip = MaybeCompressor::Compressor(Gzip::default());
    let packed = gzip.compress(data.clone()).unwrap();
    assert_ne!(packed, data);
    assert_eq!(gzip.decompress(packed).unwrap(), data);
}

#[test]
fn sample_data_counts_to_254_and_starts_over() {
    let data = create_arb_data(1024);
    assert_eq!(data.len(), 1024);
    assert_eq!(data[0], 0);
    assert_eq!(data[1], 1);
    assert_eq!(data[254], 254);
    assert_eq!(data[255], 0);
    assert_eq!(data[256], 1);
    assert_eq!(data[1023], (1023 % 255) as u8);
    assert_eq!(data[1023], 3);
    assert!(create_arb_data(0).is_empty());
}

#[test]
fn the_same_data_at_the_same_level_give_the_same_stream() {
    let data = create_arb_data(5000);
    for level in [CompressionLevel::Fastest, CompressionLevel::Default, CompressionLevel::Precise(7)] {
        assert_eq!(
            Zstd::new(level).compress(data.clone()).unwrap(),
            Zstd::new(level).compress(data.clone()).unwrap()
        );
        assert_eq!(
            Gzip::new(level).compress(data.clone()).unwrap(),
            Gzip::new(level).compress(data.clone()).unwrap()
        );
        assert_eq!(
            Brotli::new(level).compress(data.clone()).unwrap(),
            Brotli::new(level).compress(data.clone()).unwrap()
        );
    }
}

#[test]
fn the_level_of_the_compressor_reaches_the_encoder() {
    // a gzip member records in its ninth byte whether the best or the
    // fastest level made it
    let data = create_arb_data(100);
    assert_eq!(Gzip::new(CompressionLevel::Best).compress(data.clone()).unwrap()[8], 0x02);
    assert_eq!(Gzip::new(CompressionLevel::Fastest).compress(data.clone()).unwrap()[8], 0x04);
    assert_eq!(Gzip::new(CompressionLevel::Default).compress(data.clone()).unwrap()[8], 0x00);
    assert_eq!(Gzip::default().compress(data.clone()).unwrap()[8], 0x00);
    assert_eq!(Gzip::new(CompressionLevel::Precise(1000)).compress(data).unwrap()[8], 0x02);
}

#[test]
fn the_answer_of_a_codec_becomes_an_answer_of_the_library() {
    assert_eq!(Error::codec_answer(Ok(vec![1, 2, 3])).unwrap(), vec![1, 2, 3]);
    assert_eq!(Error::codec_answer(Ok(Vec::new())).unwrap(), Vec::<u8>::new());
    let cause = std::io::Error::new(std::io::ErrorKind::InvalidData, "bad stream");
    match Error::codec_answer(Err(cause)) {
        Err(Error::IoError(cause)) => {
            assert_eq!(cause.kind(), std::io::ErrorKind::InvalidData);
            assert_eq!(cause.to_string(), "bad stream");
        }
        other => panic!("Unexpected answer: {:?}", other),
    }
}

/// Bytes without a pattern that a codec could use.
fn noise(len: usize) -> Vec<u8> {
    let mut data = Vec::with_capacity(len);
    let mut seed: u64 = 0x2545_f491_4f6c_dd1d;
    for _ in 0..len {
        seed ^= seed << 13;
        seed ^= seed >> 7;
        seed ^= seed << 17;
        data.push((seed >> 24) as u8);
    }
    data
}

/// The lengths at which the buffers of the codecs and of their writers are
/// full, and the lengths about them.
fn edge_lengths() -> Vec<usize> {
    let mut lengths = Vec::new();
    for edge in [4096usize, 8192, 16384, 32768, 65536, 131072] {
        lengths.push(edge - 1);
        lengths.push(edge);
        lengths.push(edge + 1);
    }
    lengths
}

fn streams_are_read_to_the_end<C: CompressionStrategy>(compressor: &C) {
    for len in edge_lengths() {
        for data in [vec![0u8; len], create_arb_data(len), noise(len)] {
            let packed = compressor.compress(data.clone()).unwrap();
            assert!(compressor.decompress(packed).unwrap() == data, "at the length {}", len);
        }
    }
}

#[test]
fn zstd_streams_are_read_to_the_end() {
    streams_are_read_to_the_end(&Zstd::default());
    streams_are_read_to_the_end(&Zstd::new(CompressionLevel::Fastest));
}

#[test]
fn gzip_streams_are_read_to_the_end() {
    streams_are_read_to_the_end(&Gzip::default());
    streams_are_read_to_the_end(&Gzip::new(CompressionLevel::Fastest));
}

#[test]
fn brotli_streams_are_read_to_the_end() {
    streams_are_read_to_the_end(&Brotli::new(CompressionLevel::Fastest));
    streams_are_read_to_the_end(&Brotli::new(CompressionLevel::Precise(5)));
}

#[test]
fn large_values_are_restored() {
    let zeros = vec![0u8; 3_000_000];
    let sample = create_arb_data(2_000_000);
    let random = noise(1_000_000);
    for data in [zeros, sample, random] {
        let zstd = Zstd::new(CompressionLevel::Fastest);
        assert!(zstd.decompress(zstd.compress(data.clone()).unwrap()).unwrap() == data);
        let gzip = Gzip::new(CompressionLevel::Fastest);
        assert!(gzip.decompress(gzip.compress(data.clone()).unwrap()).unwrap() == data);
        let brotli = Brotli::new(CompressionLevel::Fastest);
        assert!(brotli.decompress(brotli.compress(data.clone()).unwrap()).unwrap() == data);
    }
}

#[test]
fn the_same_stream_is_read_the_same_way_every_time() {
    let data = create_arb_data(10_000);
    let packed = Zstd::default().compress(data.clone()).unwrap();
    assert_eq!(Zstd::default().decompress(packed.clone()).unwrap(), data);
    assert_eq!(Zstd::default().decompress(packed).unwrap(), data);
    let garbage = b"no stream".to_vec();
    assert!(Brotli::default().decompress(garbage.clone()).is_err());
    assert!(Brotli::default().decompress(garbage).is_err());
    // the empty stream is no stream of any codec
    assert!(matches!(Zstd::default().decompress(Vec::new()), Err(Error::IoError(_))));
    assert!(matches!(Gzip::default().decompress(Vec::new()), Err(Error::IoError(_))));
    assert!(matches!(Brotli::default().decompress(Vec::new()), Err(Error::IoError(_))));
}
