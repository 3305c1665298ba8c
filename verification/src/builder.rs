//! The fluent construction of a cache.

pub mod cache_builder;

pub use cache_builder::CacheBuilder;
