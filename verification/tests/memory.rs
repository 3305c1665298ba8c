use bincache::compression::{Gzip, NO_COMPRESSION};
use bincache::strategies::limits::{LIMIT_KIND_BYTE, LIMIT_KIND_ENTRY};
use bincache::strategies::Memory;
use bincache::traits::cache_strategy::{Delete, Get, Put, Take};
use bincache::utils::create_arb_data;
use bincache::{Cache, CacheBuilder, CacheStrategy, Error, MemoryCacheBuilder};

fn value_of(answer: Result<Get, Error>) -> Vec<u8> {
    match answer.unwrap() {
        Get::Value(value) => value,
        Get::Read(read) => panic!("a memory cache ordered the read {:?}", read),
    }
}

fn limit_kind_of<T: std::fmt::Debug>(answer: Result<T, Error>) -> String {
    match answer {
        Err(Error::LimitExceeded { limit_kind }) => limit_kind,
        other => panic!("Unexpected answer: {:?}", other),
    }
}

#[test]
fn memory_default_strategy() {
    let mut cache = Cache::new(Memory::default(), NO_COMPRESSION);

    assert!(cache.put("foo", b"foo".to_vec()).unwrap().is_none());

    assert_eq!(cache.strategy().current_byte_count(), 3);
    assert_eq!(cache.strategy().current_entry_count(), 1);

    assert!(cache.put("bar", b"bar".to_vec()).unwrap().is_none());

    assert_eq!(cache.strategy().current_byte_count(), 6);
    assert_eq!(cache.strategy().current_entry_count(), 2);

    assert_eq!(value_of(cache.get("foo")), b"foo".as_slice());
    assert_eq!(value_of(cache.get("bar")), b"bar".as_slice());

    assert!(cache.get("baz").is_err());

    assert!(matches!(cache.delete("foo").unwrap(), Delete::Done));

    assert_eq!(cache.strategy().current_byte_count(), 3);
    assert_eq!(cache.strategy().current_entry_count(), 1);

    assert!(matches!(cache.delete("bar").unwrap(), Delete::Done));

    assert_eq!(cache.strategy().current_byte_count(), 0);
    assert_eq!(cache.strategy().current_entry_count(), 0);
}

#[test]
fn memory_strategy_with_byte_limit() {
    let mut cache = Cache::new(Memory::new(Some(6), None), NO_COMPRESSION);

    cache.put("foo", b"foo".to_vec()).unwrap();
    cache.put("bar", b"bar".to_vec()).unwrap();

    assert_eq!(value_of(cache.get("foo")), b"foo".as_slice());
    assert_eq!(value_of(cache.get("bar")), b"bar".as_slice());

    assert_eq!(limit_kind_of(cache.put("baz", b"baz".to_vec())), LIMIT_KIND_BYTE);

    // the refusal changed nothing
    assert_eq!(cache.strategy().current_byte_count(), 6);
    assert_eq!(cache.strategy().current_entry_count(), 2);
    assert!(!cache.contains_key("baz"));
    assert_eq!(value_of(cache.get("foo")), b"foo".as_slice());
    assert_eq!(value_of(cache.get("bar")), b"bar".as_slice());

    // a value that fits exactly is taken; one byte more is not
    let mut cache = Cache::new(Memory::new(Some(6), None), NO_COMPRESSION);
    assert_eq!(limit_kind_of(cache.put("big", vec![0; 7])), "Stored bytes");
    assert!(cache.put("fit", vec![0; 6]).is_ok());
    assert_eq!(limit_kind_of(cache.put("one", vec![0; 1])), "Stored bytes");
    assert!(cache.put("none", Vec::new()).is_ok());
}

#[test]
fn memory_strategy_with_entry_limit() {
    let mut cache = Cache::new(Memory::new(None, Some(2)), NO_COMPRESSION);

    cache.put("foo", b"foo".to_vec()).unwrap();
    cache.put("bar", b"bar".to_vec()).unwrap();

    assert_eq!(value_of(cache.get("foo")), b"foo".as_slice());
    assert_eq!(value_of(cache.get("bar")), b"bar".as_slice());

    assert_eq!(limit_kind_of(cache.put("baz", b"baz".to_vec())), LIMIT_KIND_ENTRY);
    assert_eq!(cache.strategy().current_entry_count(), 2);

    // a deleted entry makes room again
    cache.delete("foo").unwrap();
    assert!(cache.put("baz", b"baz".to_vec()).is_ok());
    assert_eq!(value_of(cache.get("baz")), b"baz".as_slice());
}

#[test]
fn memory_strategy_with_both_limits() {
    let mut cache = Cache::new(Memory::new(Some(4), Some(1)), NO_COMPRESSION);
    // both budgets are crossed: the bytes are named
    assert_eq!(limit_kind_of(cache.put("big", vec![1; 5])), LIMIT_KIND_BYTE);
    cache.put("foo", b"foo".to_vec()).unwrap();
    // the bytes would fit, the entry does not
    assert_eq!(limit_kind_of(cache.put("b", vec![1; 1])), LIMIT_KIND_ENTRY);
}

#[test]
fn memory_cache_scenario() {
    let mut cache = Cache::new(Memory::default(), NO_COMPRESSION);
    cache.put("k", b"value".to_vec()).unwrap();
    assert_eq!(value_of(cache.get("k")), b"value");
    cache.delete("k").unwrap();
    assert!(matches!(cache.get("k"), Err(Error::KeyNotFound)));
}

#[test]
fn absent_keys_are_not_found() {
    let mut cache = Cache::new(Memory::default(), NO_COMPRESSION);
    assert!(matches!(cache.get("k"), Err(Error::KeyNotFound)));
    assert!(matches!(cache.take("k"), Err(Error::KeyNotFound)));
    assert!(matches!(cache.delete("k"), Err(Error::KeyNotFound)));
    assert!(!cache.contains_key("k"));
    cache.put("k", b"value".to_vec()).unwrap();
    assert!(cache.contains_key("k"));
    assert!(cache.contains_key("k".to_string()));
    assert!(!cache.contains_key("K"));
    assert!(matches!(cache.get("K"), Err(Error::KeyNotFound)));
}

#[test]
fn take_returns_the_value_and_removes_the_entry() {
    let mut cache = Cache::new(Memory::default(), NO_COMPRESSION);
    cache.put("foo", b"foo".to_vec()).unwrap();
    cache.put("bar", b"barbar".to_vec()).unwrap();
    match cache.take("foo").unwrap() {
        Take::Value(value) => assert_eq!(value, b"foo"),
        Take::Read(read, _) => panic!("a memory cache ordered the read {:?}", read),
    }
    assert!(!cache.contains_key("foo"));
    assert!(matches!(cache.get("foo"), Err(Error::KeyNotFound)));
    assert!(matches!(cache.take("foo"), Err(Error::KeyNotFound)));
    assert_eq!(cache.strategy().current_byte_count(), 6);
    assert_eq!(cache.strategy().current_entry_count(), 1);
    assert_eq!(value_of(cache.get("bar")), b"barbar");
}

#[test]
fn keys_are_their_string_forms() {
    let mut cache = Cache::new(Memory::default(), NO_COMPRESSION);
    cache.put("key".to_string(), b"one".to_vec()).unwrap();
    assert_eq!(value_of(cache.get("key")), b"one");
    cache.put("key", b"two".to_vec()).unwrap();
    assert_eq!(value_of(cache.get("key".to_string())), b"two");
    cache.put("", b"empty".to_vec()).unwrap();
    assert_eq!(value_of(cache.get("")), b"empty");
}

#[test]
fn a_put_over_an_entry_replaces_it_without_releasing_it() {
    let mut cache = Cache::new(Memory::new(Some(6), None), NO_COMPRESSION);
    cache.put("foo", b"one".to_vec()).unwrap();
    cache.put("foo", b"two".to_vec()).unwrap();
    assert_eq!(value_of(cache.get("foo")), b"two");
    // the entry that was replaced is still counted
    assert_eq!(cache.strategy().current_byte_count(), 6);
    assert_eq!(cache.strategy().current_entry_count(), 2);
    assert_eq!(limit_kind_of(cache.put("foo", b"x".to_vec())), LIMIT_KIND_BYTE);
    cache.delete("foo").unwrap();
    assert_eq!(cache.strategy().current_byte_count(), 3);
    assert_eq!(cache.strategy().current_entry_count(), 1);
    assert!(!cache.contains_key("foo"));
}

#[test]
fn the_memory_strategy_answers_for_itself() {
    let mut memory = Memory::new(Some(3), None);
    let entry = match memory.put(&"foo", b"foo".to_vec()).unwrap() {
        Put::Stored(entry) => entry,
        Put::Write(write) => panic!("a memory strategy ordered the write {:?}", write),
    };
    assert_eq!(memory.current_byte_count(), 3);
    assert!(matches!(memory.get(&entry), Get::Value(value) if value == b"foo"));
    assert!(matches!(memory.put(&"bar", b"b".to_vec()), Err(Error::LimitExceeded { .. })));
    assert!(matches!(memory.take(entry), Take::Value(value) if value == b"foo"));
    assert_eq!(memory.current_byte_count(), 0);
    assert_eq!(memory.current_entry_count(), 0);
}

#[test]
fn a_memory_cache_packs_what_it_stores() {
    let data = create_arb_data(4096);
    let mut cache = Cache::new(Memory::new(Some(4095), None), Some(Gzip::default()));
    // the value is larger than the budget, its packing is not
    cache.put("data", data.clone()).unwrap();
    assert!(cache.strategy().current_byte_count() < 4095);
    assert!(cache.strategy().current_byte_count() > 0);
    assert_eq!(value_of(cache.get("data")), data);
    match cache.take("data").unwrap() {
        Take::Value(value) => assert_eq!(value, data),
        Take::Read(read, _) => panic!("a memory cache ordered the read {:?}", read),
    }
    assert_eq!(cache.strategy().current_byte_count(), 0);
}

#[test]
fn builder_default() {
    let _ = CacheBuilder::default();
}

#[test]
fn builder_type_aliased() {
    let cache = MemoryCacheBuilder::default().build();
    assert_eq!(cache.strategy().current_byte_count(), 0);
    assert!(!cache.contains_key("test"));
}

#[test]
fn builder_key_inference() {
    let mut cache = CacheBuilder::default().with_strategy(Memory::default()).build();
    cache.put("test".to_string(), vec![]).unwrap();
    assert!(cache.contains_key("test"));
}

#[test]
fn builder_with_compression_in_either_order() {
    let data = create_arb_data(2000);
    let mut cache = CacheBuilder::default()
        .with_strategy(Memory::new(Some(1999), None))
        .with_compression(Gzip::default())
        .build();
    cache.put("data", data.clone()).unwrap();
    assert_eq!(value_of(cache.get("data")), data);

    let mut cache = CacheBuilder::default()
        .with_compression(Gzip::default())
        .with_strategy(Memory::new(Some(1999), None))
        .build();
    cache.put("data", data.clone()).unwrap();
    assert_eq!(value_of(cache.get("data")), data);

    // without compression the same value does not fit
    let mut cache = CacheBuilder::default().with_strategy(Memory::new(Some(1999), None)).build();
    assert_eq!(limit_kind_of(cache.put("data", data)), LIMIT_KIND_BYTE);
}

/// A compressor of an integrator: it flips every bit, and refuses values
/// that are too long for it.
struct Flip;

impl bincache::CompressionStrategy for Flip {
    // The two descriptions serve the proofs of verified callers and are
    // never run.
    fn packed(&self, _: vstd::seq::Seq<u8>) -> Option<vstd::seq::Seq<u8>> {
        unreachable!()
    }

    fn unpacked(&self, _: vstd::seq::Seq<u8>) -> Option<vstd::seq::Seq<u8>> {
        unreachable!()
    }

    fn pack_error(&self, _: vstd::seq::Seq<u8>, _: Error) -> bool {
        unreachable!()
    }

    fn unpack_error(&self, _: vstd::seq::Seq<u8>, _: Error) -> bool {
        unreachable!()
    }

    fn compress(&self, data: Vec<u8>) -> Result<Vec<u8>, Error> {
        if data.len() > 8 {
            return Err(Error::Custom { message: "too long to flip".to_string() });
        }
        Ok(data.into_iter().map(|byte| !byte).collect())
    }

    fn decompress(&self, packed: Vec<u8>) -> Result<Vec<u8>, Error> {
        Ok(packed.into_iter().map(|byte| !byte).collect())
    }
}

#[test]
fn the_error_of_a_compressor_passes_through() {
    let mut cache = Cache::new(Memory::default(), Some(Flip));
    cache.put("short", vec![0x0f, 0xf0]).unwrap();
    assert_eq!(value_of(cache.get("short")), vec![0x0f, 0xf0]);
    match cache.put("long", vec![0; 9]) {
        Err(Error::Custom { message }) => assert_eq!(message, "too long to flip"),
        other => panic!("Unexpected answer: {:?}", other),
    }
    assert!(!cache.contains_key("long"));
    assert_eq!(cache.strategy().current_byte_count(), 2);
    assert_eq!(cache.strategy().current_entry_count(), 1);
    // what was stored before is read as before
    assert_eq!(value_of(cache.get("short")), vec![0x0f, 0xf0]);
}

#[test]
fn a_put_hands_on_the_answer_of_the_compressor() {
    let mut cache = Cache::new(Memory::new(Some(3), None), NO_COMPRESSION);
    let answer = Err(Error::Custom { message: "no packing today".to_string() });
    match cache.put_answer("k", answer) {
        Err(Error::Custom { message }) => assert_eq!(message, "no packing today"),
        other => panic!("Unexpected answer: {:?}", other),
    }
    assert!(matches!(cache.put_answer("k", Err(Error::KeyNotFound)), Err(Error::KeyNotFound)));
    assert!(!cache.contains_key("k"));
    assert_eq!(cache.strategy().current_entry_count(), 0);
    assert!(cache.put_answer("k", Ok(b"abc".to_vec())).unwrap().is_none());
    assert_eq!(value_of(cache.get("k")), b"abc");
    assert_eq!(limit_kind_of(cache.put_answer("l", Ok(b"d".to_vec()))), LIMIT_KIND_BYTE);
    assert_eq!(value_of(cache.get("k")), b"abc");
}

#[test]
fn a_value_stays_readable_after_a_refused_put_with_every_codec() {
    let data = create_arb_data(600);
    let mut cache = Cache::new(Memory::new(None, Some(1)), Some(Gzip::default()));
    cache.put("first", data.clone()).unwrap();
    assert_eq!(limit_kind_of(cache.put("second", data.clone())), LIMIT_KIND_ENTRY);
    assert!(!cache.contains_key("second"));
    assert_eq!(value_of(cache.get("first")), data);
    let mut cache = Cache::new(Memory::new(None, Some(1)), Some(bincache::compression::Zstd::default()));
    cache.put("first", data.clone()).unwrap();
    assert_eq!(limit_kind_of(cache.put("second", data.clone())), LIMIT_KIND_ENTRY);
    assert_eq!(value_of(cache.get("first")), data);
    let mut cache = Cache::new(Memory::new(None, Some(1)), Some(bincache::compression::Brotli::default()));
    cache.put("first", data.clone()).unwrap();
    assert_eq!(limit_kind_of(cache.put("second", data.clone())), LIMIT_KIND_ENTRY);
    assert_eq!(value_of(cache.get("first")), data);
}
