//! The contracts that keys, strategies and compressors meet.

pub mod cache_key;
pub mod cache_strategy;
pub mod compression_strategy;
pub mod flushable_strategy;
pub mod recoverable_strategy;

pub use cache_key::CacheKey;
pub use cache_strategy::{CacheStrategy, FileStrategy};
pub use compression_strategy::CompressionStrategy;
pub use flushable_strategy::FlushableStrategy;
pub use recoverable_strategy::RecoverableStrategy;
