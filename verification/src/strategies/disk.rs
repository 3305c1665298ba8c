use crate::cache_capacity::CacheCapacity;
use crate::error::Error;
use crate::strategies::limits::{
    lemma_limit_kinds_differ, LimitEvaluation, LimitExceededKind, Limits, LimitsView,
    LIMIT_KIND_BYTE, LIMIT_KIND_ENTRY,
};
use crate::traits::cache_key::CacheKey;
use crate::traits::cache_strategy::{
    CacheStrategy, Delete, FileRead, FileRemove, FileStrategy, FileWrite, Get, Put, Residence,
    Take, Tier, Verdict,
};
use crate::traits::recoverable_strategy::{RecoverableStrategy, RecoveredFile};
use vstd::prelude::*;

verus! {

/// A value kept in a file of the cache directory.
#[derive(Debug)]
pub struct Entry {
    name: String,
    byte_len: usize,
}

impl Entry {
    /// The name of the entry's file.
    pub closed spec fn name(&self) -> Seq<char> {
        self.name@
    }

    /// The length that the file was recorded with.
    pub closed spec fn byte_len(&self) -> nat {
        self.byte_len as nat
    }
}

/// The state of a [`Disk`] strategy, as the contracts speak of it.
pub struct DiskView {
    /// The directory where entries are stored.
    pub cache_dir: Seq<char>,
    /// The budgets and counters of the files.
    pub limits: LimitsView,
}

/// Disk-based cache strategy.
///
/// This strategy stores entries on disk, one file per entry, named by the
/// key. It can be configured to limit the number of bytes and/or entries that
/// can be stored.
#[derive(Debug)]
pub struct Disk {
    /// The directory where entries are stored.
    cache_dir: String,
    /// The budgets and counters of the files.
    limits: Limits,
}

impl View for Disk {
    type V = DiskView;

    closed spec fn view(&self) -> DiskView {
        DiskView { cache_dir: self.cache_dir@, limits: self.limits@ }
    }
}

impl Default for Disk {
    fn default() -> (disk: Self)
        ensures
            disk@ == (DiskView { cache_dir: "cache"@, limits: LimitsView::empty(None, None) }),
    {
        Disk { cache_dir: "cache".to_owned(), limits: Limits::new(None, None) }
    }
}

impl Disk {
    /// Create a new disk cache strategy.
    pub fn new(cache_dir: String, byte_limit: Option<usize>, entry_limit: Option<usize>) -> (disk:
        Self)
        ensures
            disk@ == (DiskView {
                cache_dir: cache_dir@,
                limits: LimitsView::empty(byte_limit, entry_limit),
            }),
    {
        Disk { cache_dir, limits: Limits::new(byte_limit, entry_limit) }
    }

    /// The directory where entries are stored.
    pub fn cache_dir(&self) -> (cache_dir: &String)
        ensures
            cache_dir@ == self@.cache_dir,
    {
        &self.cache_dir
    }

    /// The current number of bytes stored.
    pub fn current_byte_count(&self) -> (count: usize)
        ensures
            count == self@.limits.byte_count,
    {
        self.limits.current_byte_count()
    }

    /// The current number of entries stored.
    pub fn current_entry_count(&self) -> (count: usize)
        ensures
            count == self@.limits.entry_count,
    {
        self.limits.current_entry_count()
    }

    /// The budget of `limits` that has no room for `byte_len` more bytes.
    pub open spec fn refusal(limits: LimitsView, byte_len: nat) -> Option<Seq<char>> {
        match limits.evaluate(byte_len) {
            LimitEvaluation::LimitSatisfied => None,
            LimitEvaluation::LimitExceeded(LimitExceededKind::Bytes) => Some(LIMIT_KIND_BYTE@),
            LimitEvaluation::LimitExceeded(LimitExceededKind::Entries) => Some(LIMIT_KIND_ENTRY@),
        }
    }

    /// Names the budget that has no room for `byte_len` more bytes.
    fn check(&self, byte_len: usize) -> (r: Result<(), Error>)
        ensures
            match Self::refusal(self@.limits, byte_len as nat) {
                Some(limit_kind) => r matches Err(error) && error.is_limit_exceeded(limit_kind),
                None => r is Ok,
            },
    {
        match self.limits.evaluate(byte_len) {
            LimitEvaluation::LimitExceeded(LimitExceededKind::Bytes) => Err(
                Error::limit_exceeded(LIMIT_KIND_BYTE),
            ),
            LimitEvaluation::LimitExceeded(LimitExceededKind::Entries) => Err(
                Error::limit_exceeded(LIMIT_KIND_ENTRY),
            ),
            LimitEvaluation::LimitSatisfied => Ok(()),
        }
    }
}

impl Disk {
    /// With a byte limit, a put is refused for the byte budget exactly when
    /// the bytes that are stored and those of the value would exceed the
    /// limit.
    pub proof fn lemma_byte_limit_refusal(state: DiskView, limit: usize, byte_len: nat)
        requires
            state.limits.byte_limit == Some(limit),
        ensures
            Self::verdict(state, byte_len) == Verdict::Refuse(LIMIT_KIND_BYTE@)
                <==> state.limits.byte_count + byte_len > limit,
    {
        lemma_limit_kinds_differ();
    }

    /// With a byte limit and no entry limit, a put is accepted exactly when
    /// the bytes that are stored and those of the value do not exceed the
    /// limit: a put that reaches the limit is accepted, and the first that
    /// crosses it is the first that is not. An accepted value adds its bytes
    /// and one entry to the counters. This holds as long as the entry counter
    /// can count one more entry.
    pub proof fn lemma_byte_limit_admits(state: DiskView, limit: usize, byte_len: nat)
        requires
            state.limits.byte_limit == Some(limit),
            state.limits.entry_limit is None,
            state.limits.entry_count < usize::MAX,
        ensures
            Self::verdict(state, byte_len) == Verdict::Store(Tier::File)
                <==> state.limits.byte_count + byte_len <= limit,
            Self::verdict(state, byte_len) is Store || Self::verdict(state, byte_len)
                == Verdict::Refuse(LIMIT_KIND_BYTE@),
            Self::after_store(state, Tier::File, byte_len).limits.byte_count == state.limits.byte_count + byte_len,
            Self::after_store(state, Tier::File, byte_len).limits.entry_count == state.limits.entry_count + 1,
    {
    }

    /// With an entry limit, a put of a value that the byte budget has room
    /// for is accepted exactly when fewer entries are stored than the limit
    /// allows: with a limit of N, the first N puts are accepted and the next
    /// is not.
    pub proof fn lemma_entry_limit_admits(state: DiskView, limit: usize, byte_len: nat)
        requires
            state.limits.entry_limit == Some(limit),
            state.limits.byte_count + byte_len <= state.limits.byte_budget(),
        ensures
            Self::verdict(state, byte_len) == Verdict::Store(Tier::File)
                <==> state.limits.entry_count < limit,
            Self::verdict(state, byte_len) is Store || Self::verdict(state, byte_len)
                == Verdict::Refuse(LIMIT_KIND_ENTRY@),
    {
    }

    /// With an entry limit, a put of a value that the byte budget has room
    /// for is refused for the entry budget exactly when as many entries are
    /// stored as the limit allows.
    pub proof fn lemma_entry_limit_refusal(state: DiskView, limit: usize, byte_len: nat)
        requires
            state.limits.entry_limit == Some(limit),
            state.limits.byte_count + byte_len <= state.limits.byte_budget(),
        ensures
            Self::verdict(state, byte_len) == Verdict::Refuse(LIMIT_KIND_ENTRY@)
                <==> state.limits.entry_count >= limit,
    {
        lemma_limit_kinds_differ();
    }

    /// After a recovery the counters are what they were and the totals of
    /// the files: recovered into an empty strategy, they are the totals.
    pub proof fn lemma_recovery_counts(state: DiskView, bytes: nat, entries: nat)
        ensures
            Self::after_recovery(state, bytes, entries).limits.byte_count
                == state.limits.byte_count + bytes,
            Self::after_recovery(state, bytes, entries).limits.entry_count
                == state.limits.entry_count + entries,
            Self::recovery_refusal(state, bytes, entries) is None <==> {
                &&& state.limits.byte_count + bytes <= usize::MAX
                &&& state.limits.entry_count + entries <= usize::MAX
            },
    {
    }
}

impl CacheStrategy for Disk {
    type CacheEntry = Entry;

    open spec fn residence(entry: &Entry) -> Residence {
        Residence::File(entry.name(), entry.byte_len())
    }

    /// A value goes to a file where both budgets have room for it, bytes
    /// checked first.
    open spec fn verdict(state: DiskView, byte_len: nat) -> Verdict {
        match Self::refusal(state.limits, byte_len) {
            Some(limit_kind) => Verdict::Refuse(limit_kind),
            None => Verdict::Store(Tier::File),
        }
    }

    open spec fn after_store(state: DiskView, tier: Tier, byte_len: nat) -> DiskView {
        match tier {
            Tier::Memory => state,
            Tier::File => DiskView { limits: state.limits.stored(byte_len), ..state },
        }
    }

    open spec fn after_release(state: DiskView, tier: Tier, byte_len: nat) -> DiskView {
        match tier {
            Tier::Memory => state,
            Tier::File => DiskView { limits: state.limits.released(byte_len), ..state },
        }
    }

    open spec fn capacity(state: DiskView) -> Option<(usize, usize)> {
        match state.limits.byte_limit {
            Some(limit) => Some((limit, state.limits.byte_count as usize)),
            None => None,
        }
    }

    fn put<K: CacheKey>(&mut self, key: &K, value: Vec<u8>) -> (r: Result<Put<Entry>, Error>) {
        match self.check(value.len()) {
            Err(error) => Err(error),
            Ok(_) => Ok(Put::Write(FileWrite { name: key.to_key(), data: value })),
        }
    }

    fn get(&self, entry: &Entry) -> (r: Get) {
        Get::Read(FileRead { name: entry.name.clone(), byte_len: entry.byte_len })
    }

    fn take(&mut self, entry: Entry) -> (r: Take<Entry>) {
        Take::Read(FileRead { name: entry.name.clone(), byte_len: entry.byte_len }, entry)
    }

    fn delete(&mut self, entry: Entry) -> (r: Delete<Entry>) {
        Delete::Remove(FileRemove { name: entry.name.clone() }, entry)
    }

    fn get_cache_capacity(&self) -> (r: Option<CacheCapacity>) {
        match self.limits.byte_limit() {
            Some(limit) => Some(CacheCapacity::new(limit, self.limits.current_byte_count())),
            None => None,
        }
    }
}

impl FileStrategy for Disk {
    open spec fn file_refusal(state: DiskView, byte_len: nat) -> Option<Seq<char>> {
        Self::refusal(state.limits, byte_len)
    }

    proof fn lemma_file_verdict(state: DiskView, byte_len: nat) {
    }

    fn written(&mut self, write: FileWrite, outcome: Result<(), std::io::Error>) -> (r: Result<
        Entry,
        Error,
    >) {
        match outcome {
            Err(cause) => Err(Error::IoError(cause)),
            Ok(_) => {
                let byte_len = write.data.len();
                match self.limits.store(byte_len) {
                    LimitEvaluation::LimitExceeded(LimitExceededKind::Bytes) => Err(
                        Error::limit_exceeded(LIMIT_KIND_BYTE),
                    ),
                    LimitEvaluation::LimitExceeded(LimitExceededKind::Entries) => Err(
                        Error::limit_exceeded(LIMIT_KIND_ENTRY),
                    ),
                    LimitEvaluation::LimitSatisfied => Ok(Entry { name: write.name, byte_len }),
                }
            },
        }
    }

    fn removed(&mut self, entry: Entry, outcome: Result<(), std::io::Error>) -> (r: Result<
        (),
        Error,
    >) {
        match outcome {
            Err(cause) => Err(Error::IoError(cause)),
            Ok(_) => {
                self.limits.release(entry.byte_len);
                Ok(())
            },
        }
    }
}

impl RecoverableStrategy for Disk {
    open spec fn recovery_refusal(state: DiskView, bytes: nat, entries: nat) -> Option<Seq<char>> {
        match state.limits.holds(bytes, entries) {
            LimitEvaluation::LimitSatisfied => None,
            LimitEvaluation::LimitExceeded(LimitExceededKind::Bytes) => Some(LIMIT_KIND_BYTE@),
            LimitEvaluation::LimitExceeded(LimitExceededKind::Entries) => Some(LIMIT_KIND_ENTRY@),
        }
    }

    open spec fn after_recovery(state: DiskView, bytes: nat, entries: nat) -> DiskView {
        DiskView { limits: state.limits.registered(bytes, entries), ..state }
    }

    fn recover<K>(&mut self, found: Vec<RecoveredFile<K>>) -> (r: Result<Vec<(K, Entry)>, Error>) {
        match self.limits.register_all(&found) {
            LimitEvaluation::LimitExceeded(LimitExceededKind::Bytes) => Err(
                Error::limit_exceeded(LIMIT_KIND_BYTE),
            ),
            LimitEvaluation::LimitExceeded(LimitExceededKind::Entries) => Err(
                Error::limit_exceeded(LIMIT_KIND_ENTRY),
            ),
            LimitEvaluation::LimitSatisfied => {
                let ghost files = found@;
                let mut entries: Vec<(K, Entry)> = Vec::new();
                for file in iter: found
                    invariant
                        iter.seq() == files,
                        entries@.len() == iter.index(),
                        forall|i: int|
                            0 <= i < entries@.len() ==> {
                                &&& (#[trigger] entries@[i]).0 == files[i].key
                                &&& entries@[i].1.name() == files[i].name@
                                &&& entries@[i].1.byte_len() == files[i].byte_len as nat
                            },
                {
                    entries.push((file.key, Entry { name: file.name, byte_len: file.byte_len }));
                }
                Ok(entries)
            },
        }
    }
}

} // verus!
