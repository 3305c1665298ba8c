use crate::cache::Cache;
use crate::noop::Noop;
use crate::traits::{CacheStrategy, CompressionStrategy};
use vstd::prelude::*;

verus! {

/// A builder for creating a new [Cache].
///
/// A cache is built from a strategy and, where values are to be packed, a
/// compressor. The builder has a `build` only once the strategy is set.
#[derive(Debug, Default)]
pub struct CacheBuilder;

/// A builder that holds the strategy of the cache.
pub struct CacheBuilderWithStrategy<S> {
    strategy: S,
}

/// A builder that holds the compressor of the cache.
pub struct CacheBuilderWithCompression<C> {
    compressor: C,
}

/// A builder that holds the strategy and the compressor of the cache.
pub struct CacheBuilderWithCompressionAndStrategy<S, C> {
    strategy: S,
    compressor: C,
}

impl<S> CacheBuilderWithStrategy<S> {
    /// The strategy that the builder holds.
    pub closed spec fn strategy(&self) -> S {
        self.strategy
    }
}

impl<C> CacheBuilderWithCompression<C> {
    /// The compressor that the builder holds.
    pub closed spec fn compressor(&self) -> C {
        self.compressor
    }
}

impl<S, C> CacheBuilderWithCompressionAndStrategy<S, C> {
    /// The strategy that the builder holds.
    pub closed spec fn strategy(&self) -> S {
        self.strategy
    }

    /// The compressor that the builder holds.
    pub closed spec fn compressor(&self) -> C {
        self.compressor
    }
}

impl<S: Default + CacheStrategy> Default for CacheBuilderWithStrategy<S> {
    fn default() -> (builder: Self)
        ensures
            call_ensures(S::default, (), builder.strategy()),
    {
        CacheBuilderWithStrategy { strategy: S::default() }
    }
}

impl<C: Default + CompressionStrategy> Default for CacheBuilderWithCompression<C> {
    fn default() -> (builder: Self)
        ensures
            call_ensures(C::default, (), builder.compressor()),
    {
        CacheBuilderWithCompression { compressor: C::default() }
    }
}

impl<S: Default + CacheStrategy, C: Default + CompressionStrategy> Default for CacheBuilderWithCompressionAndStrategy<
    S,
    C,
> {
    fn default() -> (builder: Self)
        ensures
            call_ensures(S::default, (), builder.strategy()),
            call_ensures(C::default, (), builder.compressor()),
    {
        CacheBuilderWithCompressionAndStrategy {
            strategy: S::default(),
            compressor: C::default(),
        }
    }
}

impl CacheBuilder {
    /// Add a strategy to the cache
    pub fn with_strategy<S: CacheStrategy>(self, strategy: S) -> (builder: CacheBuilderWithStrategy<
        S,
    >)
        ensures
            builder.strategy() == strategy,
    {
        CacheBuilderWithStrategy { strategy }
    }

    /// Add a compression algorithm to the cache
    pub fn with_compression<C: CompressionStrategy>(self, compressor: C) -> (builder:
        CacheBuilderWithCompression<C>)
        ensures
            builder.compressor() == compressor,
    {
        CacheBuilderWithCompression { compressor }
    }
}

impl<C> CacheBuilderWithCompression<C> {
    /// Add a strategy to the cache
    pub fn with_strategy<S>(self, strategy: S) -> (builder: CacheBuilderWithCompressionAndStrategy<
        S,
        C,
    >)
        ensures
            builder.strategy() == strategy,
            builder.compressor() == self.compressor(),
    {
        CacheBuilderWithCompressionAndStrategy { strategy, compressor: self.compressor }
    }
}

impl<S: CacheStrategy> CacheBuilderWithStrategy<S> {
    /// Add a compression algorithm to the cache
    pub fn with_compression<C: CompressionStrategy>(self, compressor: C) -> (builder:
        CacheBuilderWithCompressionAndStrategy<S, C>)
        ensures
            builder.strategy() == self.strategy(),
            builder.compressor() == compressor,
    {
        CacheBuilderWithCompressionAndStrategy { strategy: self.strategy, compressor }
    }

    /// Build the cache without using compression
    pub fn build(self) -> (cache: Cache<S, Noop>)
        ensures
            cache.wf(),
            cache.keys() == Seq::<Seq<char>>::empty(),
            cache.entries() == Map::<Seq<char>, S::CacheEntry>::empty(),
            cache.state() == self.strategy()@,
            cache.compressor() == None::<Noop>,
    {
        Cache::new(self.strategy, None)
    }
}

impl<S: CacheStrategy, C: CompressionStrategy> CacheBuilderWithCompressionAndStrategy<S, C> {
    /// Build the cache, which packs its values with the compressor
    pub fn build(self) -> (cache: Cache<S, C>)
        ensures
            cache.wf(),
            cache.keys() == Seq::<Seq<char>>::empty(),
            cache.entries() == Map::<Seq<char>, S::CacheEntry>::empty(),
            cache.state() == self.strategy()@,
            cache.compressor() == Some(self.compressor()),
    {
        Cache::new(self.strategy, Some(self.compressor))
    }
}

} // verus!
