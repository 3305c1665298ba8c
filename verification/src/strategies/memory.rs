use crate::cache_capacity::CacheCapacity;
use crate::error::Error;
use crate::strategies::limits::{
    lemma_limit_kinds_differ, LimitEvaluation, LimitExceededKind, Limits, LimitsView,
    LIMIT_KIND_BYTE, LIMIT_KIND_ENTRY,
};
use crate::traits::cache_key::CacheKey;
use crate::traits::cache_strategy::{
    CacheStrategy, Delete, Get, Put, Residence, Take, Tier, Verdict,
};
use vstd::prelude::*;

verus! {

/// A value held in memory.
#[derive(Debug)]
pub struct Entry {
    data: Vec<u8>,
    byte_len: usize,
}

impl Entry {
    #[verifier::type_invariant]
    spec fn well_formed(self) -> bool {
        self.byte_len == self.data@.len()
    }

    /// The bytes that the entry holds.
    pub closed spec fn data(&self) -> Seq<u8> {
        self.data@
    }
}

/// Memory-based cache strategy.
///
/// This strategy stores entries in memory. It can be configured to limit the
/// number of bytes and/or entries that can be stored.
#[derive(Debug)]
pub struct Memory {
    limits: Limits,
}

impl View for Memory {
    type V = LimitsView;

    closed spec fn view(&self) -> LimitsView {
        self.limits@
    }
}

impl Default for Memory {
    fn default() -> (memory: Self)
        ensures
            memory@ == LimitsView::empty(None, None),
    {
        Memory { limits: Limits::new(None, None) }
    }
}

impl Memory {
    /// Create a new memory cache strategy.
    pub fn new(byte_limit: Option<usize>, entry_limit: Option<usize>) -> (memory: Self)
        ensures
            memory@ == LimitsView::empty(byte_limit, entry_limit),
    {
        Memory { limits: Limits::new(byte_limit, entry_limit) }
    }

    /// The current number of bytes stored.
    pub fn current_byte_count(&self) -> (count: usize)
        ensures
            count == self@.byte_count,
    {
        self.limits.current_byte_count()
    }

    /// The current number of entries stored.
    pub fn current_entry_count(&self) -> (count: usize)
        ensures
            count == self@.entry_count,
    {
        self.limits.current_entry_count()
    }
}

impl Memory {
    /// With a byte limit, a put is refused for the byte budget exactly when
    /// the bytes that are stored and those of the value would exceed the
    /// limit.
    pub proof fn lemma_byte_limit_refusal(state: LimitsView, limit: usize, byte_len: nat)
        requires
            state.byte_limit == Some(limit),
        ensures
            Self::verdict(state, byte_len) == Verdict::Refuse(LIMIT_KIND_BYTE@)
                <==> state.byte_count + byte_len > limit,
    {
        lemma_limit_kinds_differ();
    }

    /// With a byte limit and no entry limit, a put is accepted exactly when
    /// the bytes that are stored and those of the value do not exceed the
    /// limit: a put that reaches the limit is accepted, and the first that
    /// crosses it is the first that is not. An accepted value adds its bytes
    /// and one entry to the counters. This holds as long as the entry counter
    /// can count one more entry.
    pub proof fn lemma_byte_limit_admits(state: LimitsView, limit: usize, byte_len: nat)
        requires
            state.byte_limit == Some(limit),
            state.entry_limit is None,
            state.entry_count < usize::MAX,
        ensures
            Self::verdict(state, byte_len) == Verdict::Store(Tier::Memory)
                <==> state.byte_count + byte_len <= limit,
            Self::verdict(state, byte_len) is Store || Self::verdict(state, byte_len)
                == Verdict::Refuse(LIMIT_KIND_BYTE@),
            Self::after_store(state, Tier::Memory, byte_len).byte_count == state.byte_count + byte_len,
            Self::after_store(state, Tier::Memory, byte_len).entry_count == state.entry_count + 1,
    {
    }

    /// With an entry limit, a put of a value that the byte budget has room
    /// for is accepted exactly when fewer entries are stored than the limit
    /// allows: with a limit of N, the first N puts are accepted and the next
    /// is not.
    pub proof fn lemma_entry_limit_admits(state: LimitsView, limit: usize, byte_len: nat)
        requires
            state.entry_limit == Some(limit),
            state.byte_count + byte_len <= state.byte_budget(),
        ensures
            Self::verdict(state, byte_len) == Verdict::Store(Tier::Memory)
                <==> state.entry_count < limit,
            Self::verdict(state, byte_len) is Store || Self::verdict(state, byte_len)
                == Verdict::Refuse(LIMIT_KIND_ENTRY@),
    {
    }

    /// With an entry limit, a put of a value that the byte budget has room
    /// for is refused for the entry budget exactly when as many entries are
    /// stored as the limit allows.
    pub proof fn lemma_entry_limit_refusal(state: LimitsView, limit: usize, byte_len: nat)
        requires
            state.entry_limit == Some(limit),
            state.byte_count + byte_len <= state.byte_budget(),
        ensures
            Self::verdict(state, byte_len) == Verdict::Refuse(LIMIT_KIND_ENTRY@)
                <==> state.entry_count >= limit,
    {
        lemma_limit_kinds_differ();
    }
}

impl CacheStrategy for Memory {
    type CacheEntry = Entry;

    open spec fn residence(entry: &Entry) -> Residence {
        Residence::Memory(entry.data())
    }

    /// A value is stored where both budgets have room for it, bytes checked
    /// first.
    open spec fn verdict(state: LimitsView, byte_len: nat) -> Verdict {
        match state.evaluate(byte_len) {
            LimitEvaluation::LimitSatisfied => Verdict::Store(Tier::Memory),
            LimitEvaluation::LimitExceeded(LimitExceededKind::Bytes) => Verdict::Refuse(
                LIMIT_KIND_BYTE@,
            ),
            LimitEvaluation::LimitExceeded(LimitExceededKind::Entries) => Verdict::Refuse(
                LIMIT_KIND_ENTRY@,
            ),
        }
    }

    open spec fn after_store(state: LimitsView, tier: Tier, byte_len: nat) -> LimitsView {
        match tier {
            Tier::Memory => state.stored(byte_len),
            Tier::File => state,
        }
    }

    open spec fn after_release(state: LimitsView, tier: Tier, byte_len: nat) -> LimitsView {
        match tier {
            Tier::Memory => state.released(byte_len),
            Tier::File => state,
        }
    }

    open spec fn capacity(state: LimitsView) -> Option<(usize, usize)> {
        match state.byte_limit {
            Some(limit) => Some((limit, state.byte_count as usize)),
            None => None,
        }
    }

    fn put<K: CacheKey>(&mut self, key: &K, value: Vec<u8>) -> (r: Result<Put<Entry>, Error>) {
        let byte_len = value.len();
        match self.limits.store(byte_len) {
            LimitEvaluation::LimitExceeded(LimitExceededKind::Bytes) => Err(
                Error::limit_exceeded(LIMIT_KIND_BYTE),
            ),
            LimitEvaluation::LimitExceeded(LimitExceededKind::Entries) => Err(
                Error::limit_exceeded(LIMIT_KIND_ENTRY),
            ),
            LimitEvaluation::LimitSatisfied => Ok(Put::Stored(Entry { data: value, byte_len })),
        }
    }

    fn get(&self, entry: &Entry) -> (r: Get) {
        Get::Value(entry.data.clone())
    }

    fn take(&mut self, entry: Entry) -> (r: Take<Entry>) {
        proof {
            use_type_invariant(&entry);
        }
        self.limits.release(entry.byte_len);
        Take::Value(entry.data)
    }

    fn delete(&mut self, entry: Entry) -> (r: Delete<Entry>) {
        proof {
            use_type_invariant(&entry);
        }
        self.limits.release(entry.byte_len);
        Delete::Done
    }

    fn get_cache_capacity(&self) -> (r: Option<CacheCapacity>) {
        match self.limits.byte_limit() {
            Some(limit) => Some(CacheCapacity::new(limit, self.limits.current_byte_count())),
            None => None,
        }
    }
}

} // verus!
