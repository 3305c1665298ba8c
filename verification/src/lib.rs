//! A binary-object cache whose storage decisions are verified.
//!
//! The cache keeps binary values under keys. A strategy decides where a
//! value lives: in memory, in a file on disk, or in memory for as long as
//! there is room and on disk after that. Values can be packed by a
//! compressor on the way in.
//!
//! The library decides and keeps the books; it touches no file. Where a
//! value belongs in a file, the cache hands out the order to write, read or
//! remove the file, and is told afterwards how the operation ended.

pub mod builder;
pub mod cache;
pub mod cache_capacity;
pub mod compression;
mod entry_map;
pub mod error;
pub mod noop;
pub mod strategies;
pub mod traits;
pub mod utils;

pub use builder::CacheBuilder;
pub use cache::Cache;
pub use cache_capacity::CacheCapacity;
pub use error::Error;
pub use strategies::Disk as DiskStrategy;
pub use strategies::Hybrid as HybridStrategy;
pub use strategies::Memory as MemoryStrategy;
pub use traits::{
    CacheKey, CacheStrategy, CompressionStrategy, FileStrategy, FlushableStrategy,
    RecoverableStrategy,
};

use builder::cache_builder::CacheBuilderWithStrategy;
use vstd::prelude::*;

verus! {

/// A [Cache] using the [MemoryStrategy].
pub type MemoryCache<C> = Cache<strategies::Memory, C>;

/// A [CacheBuilder] using the [MemoryStrategy].
pub type MemoryCacheBuilder = CacheBuilderWithStrategy<strategies::Memory>;

/// A [Cache] using the [DiskStrategy].
pub type DiskCache<C> = Cache<strategies::Disk, C>;

/// A [CacheBuilder] using the [DiskStrategy].
pub type DiskCacheBuilder = CacheBuilderWithStrategy<strategies::Disk>;

/// A [Cache] using the [HybridStrategy].
pub type HybridCache<C> = Cache<strategies::Hybrid, C>;

/// A [CacheBuilder] using the [HybridStrategy].
pub type HybridCacheBuilder = CacheBuilderWithStrategy<strategies::Hybrid>;

} // verus!
