use crate::cache_capacity::CacheCapacity;
use crate::error::Error;
use crate::strategies::limits::{
    lemma_limit_kinds_differ, LimitEvaluation, LimitExceededKind, Limits, LimitsView, LIMIT_KIND_BYTE_DISK,
    LIMIT_KIND_ENTRY_DISK,
};
use crate::traits::cache_key::CacheKey;
use crate::traits::cache_strategy::{
    CacheStrategy, Delete, FileRead, FileRemove, FileStrategy, FileWrite, Get, Put, Residence,
    Take, Tier, Verdict,
};
use crate::traits::flushable_strategy::FlushableStrategy;
use crate::traits::recoverable_strategy::{RecoverableStrategy, RecoveredFile};
use vstd::prelude::*;

verus! {

/// A cache entry stored in memory.
#[derive(Debug)]
pub struct MemoryEntry {
    data: Vec<u8>,
    byte_len: usize,
}

impl MemoryEntry {
    #[verifier::type_invariant]
    spec fn well_formed(self) -> bool {
        self.byte_len == self.data@.len()
    }

    /// The bytes that the entry holds.
    pub closed spec fn data(&self) -> Seq<u8> {
        self.data@
    }
}

/// A cache entry stored on disk.
#[derive(Debug)]
pub struct DiskEntry {
    name: String,
    byte_len: usize,
}

impl DiskEntry {
    /// The name of the entry's file.
    pub closed spec fn name(&self) -> Seq<char> {
        self.name@
    }

    /// The length that the file was recorded with.
    pub closed spec fn byte_len(&self) -> nat {
        self.byte_len as nat
    }
}

/// A hybrid cache entry.
#[derive(Debug)]
pub enum Entry {
    /// The value is in memory.
    Memory(MemoryEntry),
    /// The value is in a file.
    Disk(DiskEntry),
}

/// The state of a [`Hybrid`] strategy, as the contracts speak of it.
pub struct HybridView {
    /// The directory where entries are stored.
    pub cache_dir: Seq<char>,
    /// The budgets and counters of the memory tier.
    pub memory: LimitsView,
    /// The budgets and counters of the disk tier.
    pub disk: LimitsView,
}

/// Hybrid cache strategy.
///
/// This strategy stores entries in memory, and on disk those that memory has
/// no room for. Each tier can be configured to limit the number of bytes
/// and/or entries that can be stored.
#[derive(Debug)]
pub struct Hybrid {
    /// The directory where entries are stored.
    cache_dir: String,
    /// Memory usage limits.
    memory_limits: Limits,
    /// Disk usage limits.
    disk_limits: Limits,
}

impl View for Hybrid {
    type V = HybridView;

    closed spec fn view(&self) -> HybridView {
        HybridView {
            cache_dir: self.cache_dir@,
            memory: self.memory_limits@,
            disk: self.disk_limits@,
        }
    }
}

impl Default for Hybrid {
    fn default() -> (hybrid: Self)
        ensures
            hybrid@ == (HybridView {
                cache_dir: "cache"@,
                memory: LimitsView::empty(None, None),
                disk: LimitsView::empty(None, None),
            }),
    {
        Hybrid {
            cache_dir: "cache".to_owned(),
            memory_limits: Limits::new(None, None),
            disk_limits: Limits::new(None, None),
        }
    }
}

impl Hybrid {
    /// Create a new hybrid cache strategy.
    pub fn new(cache_dir: String, memory_limits: Limits, disk_limits: Limits) -> (hybrid: Self)
        ensures
            hybrid@ == (HybridView {
                cache_dir: cache_dir@,
                memory: memory_limits@,
                disk: disk_limits@,
            }),
    {
        Hybrid { cache_dir, memory_limits, disk_limits }
    }

    /// The directory where entries are stored.
    pub fn cache_dir(&self) -> (cache_dir: &String)
        ensures
            cache_dir@ == self@.cache_dir,
    {
        &self.cache_dir
    }

    /// Memory usage limits.
    pub fn memory_limits(&self) -> (limits: &Limits)
        ensures
            limits@ == self@.memory,
    {
        &self.memory_limits
    }

    /// Disk usage limits.
    pub fn disk_limits(&self) -> (limits: &Limits)
        ensures
            limits@ == self@.disk,
    {
        &self.disk_limits
    }

    /// The budget of the disk tier `disk` that has no room for `byte_len`
    /// more bytes.
    pub open spec fn refusal(disk: LimitsView, byte_len: nat) -> Option<Seq<char>> {
        match disk.evaluate(byte_len) {
            LimitEvaluation::LimitSatisfied => None,
            LimitEvaluation::LimitExceeded(LimitExceededKind::Bytes) => Some(LIMIT_KIND_BYTE_DISK@),
            LimitEvaluation::LimitExceeded(LimitExceededKind::Entries) => Some(
                LIMIT_KIND_ENTRY_DISK@,
            ),
        }
    }

    /// Names the budget of the disk tier that has no room for `byte_len`
    /// more bytes.
    fn check_disk(&self, byte_len: usize) -> (r: Result<(), Error>)
        ensures
            match Self::refusal(self@.disk, byte_len as nat) {
                Some(limit_kind) => r matches Err(error) && error.is_limit_exceeded(limit_kind),
                None => r is Ok,
            },
    {
        match self.disk_limits.evaluate(byte_len) {
            LimitEvaluation::LimitExceeded(LimitExceededKind::Bytes) => Err(
                Error::limit_exceeded(LIMIT_KIND_BYTE_DISK),
            ),
            LimitEvaluation::LimitExceeded(LimitExceededKind::Entries) => Err(
                Error::limit_exceeded(LIMIT_KIND_ENTRY_DISK),
            ),
            LimitEvaluation::LimitSatisfied => Ok(()),
        }
    }
}

impl Hybrid {
    /// A value that the memory tier has room for stays in memory.
    pub proof fn lemma_memory_first(state: HybridView, byte_len: nat)
        requires
            state.memory.evaluate(byte_len) is LimitSatisfied,
        ensures
            Self::verdict(state, byte_len) == Verdict::Store(Tier::Memory),
    {
    }

    /// A value that the memory tier has no room for spills over to a file
    /// exactly when the disk tier has room for it. A disk tier without
    /// limits has room as long as its counters can count.
    pub proof fn lemma_spillover(state: HybridView, byte_len: nat)
        requires
            !(state.memory.evaluate(byte_len) is LimitSatisfied),
        ensures
            Self::verdict(state, byte_len) == Verdict::Store(Tier::File) <==> state.disk.evaluate(
                byte_len,
            ) is LimitSatisfied,
            state.disk.byte_limit is None && state.disk.entry_limit is None
                && state.disk.byte_count + byte_len <= usize::MAX && state.disk.entry_count
                < usize::MAX ==> Self::verdict(state, byte_len) == Verdict::Store(Tier::File),
    {
    }

    /// Where neither tier has room, the refusal names the budget of the disk
    /// tier that is crossed: the bytes, if they are, else the entries.
    pub proof fn lemma_refusal_names_the_disk(state: HybridView, byte_len: nat)
        requires
            !(state.memory.evaluate(byte_len) is LimitSatisfied),
        ensures
            Self::verdict(state, byte_len) == Verdict::Refuse(LIMIT_KIND_BYTE_DISK@)
                <==> state.disk.byte_count + byte_len > state.disk.byte_budget(),
            Self::verdict(state, byte_len) == Verdict::Refuse(LIMIT_KIND_ENTRY_DISK@) <==> {
                &&& state.disk.byte_count + byte_len <= state.disk.byte_budget()
                &&& state.disk.entry_count + 1 > state.disk.entry_budget()
            },
    {
        lemma_limit_kinds_differ();
    }

    /// Flushing an entry of `byte_len` bytes takes the entry from the
    /// counters of the memory tier and adds an entry of the same size to
    /// those of the disk tier.
    pub proof fn lemma_flush_moves_counts(state: HybridView, byte_len: nat)
        ensures
            Self::after_release(
                Self::after_store(state, Tier::File, byte_len),
                Tier::Memory,
                byte_len,
            ) == (HybridView {
                memory: state.memory.released(byte_len),
                disk: state.disk.stored(byte_len),
                ..state
            }),
    {
    }

    /// Recovery counts every file in the disk tier and leaves the memory
    /// tier alone.
    pub proof fn lemma_recovery_counts(state: HybridView, bytes: nat, entries: nat)
        ensures
            Self::after_recovery(state, bytes, entries).memory == state.memory,
            Self::after_recovery(state, bytes, entries).disk.byte_count == state.disk.byte_count
                + bytes,
            Self::after_recovery(state, bytes, entries).disk.entry_count
                == state.disk.entry_count + entries,
    {
    }
}

impl CacheStrategy for Hybrid {
    type CacheEntry = Entry;

    open spec fn residence(entry: &Entry) -> Residence {
        match entry {
            Entry::Memory(entry) => Residence::Memory(entry.data()),
            Entry::Disk(entry) => Residence::File(entry.name(), entry.byte_len()),
        }
    }

    /// A value goes to memory where the memory tier has room for it, else
    /// to a file where the disk tier has room. Where neither has, the refusal
    /// names the budget of the disk tier.
    open spec fn verdict(state: HybridView, byte_len: nat) -> Verdict {
        if state.memory.evaluate(byte_len) is LimitSatisfied {
            Verdict::Store(Tier::Memory)
        } else {
            match Self::refusal(state.disk, byte_len) {
                Some(limit_kind) => Verdict::Refuse(limit_kind),
                None => Verdict::Store(Tier::File),
            }
        }
    }

    open spec fn after_store(state: HybridView, tier: Tier, byte_len: nat) -> HybridView {
        match tier {
            Tier::Memory => HybridView { memory: state.memory.stored(byte_len), ..state },
            Tier::File => HybridView { disk: state.disk.stored(byte_len), ..state },
        }
    }

    open spec fn after_release(state: HybridView, tier: Tier, byte_len: nat) -> HybridView {
        match tier {
            Tier::Memory => HybridView { memory: state.memory.released(byte_len), ..state },
            Tier::File => HybridView { disk: state.disk.released(byte_len), ..state },
        }
    }

    /// There is a snapshot where both tiers have a byte limit, and the sums
    /// of the limits and of the counters fit the machine's word.
    open spec fn capacity(state: HybridView) -> Option<(usize, usize)> {
        match (state.memory.byte_limit, state.disk.byte_limit) {
            (Some(memory_limit), Some(disk_limit)) => if memory_limit + disk_limit <= usize::MAX
                && state.memory.byte_count + state.disk.byte_count <= usize::MAX {
                Some(
                    (
                        (memory_limit + disk_limit) as usize,
                        (state.memory.byte_count + state.disk.byte_count) as usize,
                    ),
                )
            } else {
                None
            },
            _ => None,
        }
    }

    fn put<K: CacheKey>(&mut self, key: &K, value: Vec<u8>) -> (r: Result<Put<Entry>, Error>) {
        let byte_len = value.len();
        if self.memory_limits.store(byte_len).is_satisfied() {
            Ok(Put::Stored(Entry::Memory(MemoryEntry { data: value, byte_len })))
        } else {
            match self.check_disk(byte_len) {
                Err(error) => Err(error),
                Ok(_) => Ok(Put::Write(FileWrite { name: key.to_key(), data: value })),
            }
        }
    }

    fn get(&self, entry: &Entry) -> (r: Get) {
        match entry {
            Entry::Memory(entry) => Get::Value(entry.data.clone()),
            Entry::Disk(entry) => Get::Read(
                FileRead { name: entry.name.clone(), byte_len: entry.byte_len },
            ),
        }
    }

    fn take(&mut self, entry: Entry) -> (r: Take<Entry>) {
        match entry {
            Entry::Memory(entry) => {
                proof {
                    use_type_invariant(&entry);
                }
                self.memory_limits.release(entry.byte_len);
                Take::Value(entry.data)
            },
            Entry::Disk(entry) => Take::Read(
                FileRead { name: entry.name.clone(), byte_len: entry.byte_len },
                Entry::Disk(entry),
            ),
        }
    }

    fn delete(&mut self, entry: Entry) -> (r: Delete<Entry>) {
        match entry {
            Entry::Memory(entry) => {
                proof {
                    use_type_invariant(&entry);
                }
                self.memory_limits.release(entry.byte_len);
                Delete::Done
            },
            Entry::Disk(entry) => Delete::Remove(
                FileRemove { name: entry.name.clone() },
                Entry::Disk(entry),
            ),
        }
    }

    fn get_cache_capacity(&self) -> (r: Option<CacheCapacity>) {
        match (self.memory_limits.byte_limit(), self.disk_limits.byte_limit()) {
            (Some(memory_limit), Some(disk_limit)) => {
                let memory_count = self.memory_limits.current_byte_count();
                let disk_count = self.disk_limits.current_byte_count();
                if memory_limit <= usize::MAX - disk_limit && memory_count <= usize::MAX
                    - disk_count {
                    Some(CacheCapacity::new(memory_limit + disk_limit, memory_count + disk_count))
                } else {
                    None
                }
            },
            _ => None,
        }
    }
}

impl FileStrategy for Hybrid {
    open spec fn file_refusal(state: HybridView, byte_len: nat) -> Option<Seq<char>> {
        Self::refusal(state.disk, byte_len)
    }

    proof fn lemma_file_verdict(state: HybridView, byte_len: nat) {
    }

    fn written(&mut self, write: FileWrite, outcome: Result<(), std::io::Error>) -> (r: Result<
        Entry,
        Error,
    >) {
        match outcome {
            Err(cause) => Err(Error::IoError(cause)),
            Ok(_) => {
                let byte_len = write.data.len();
                match self.disk_limits.store(byte_len) {
                    LimitEvaluation::LimitExceeded(LimitExceededKind::Bytes) => Err(
                        Error::limit_exceeded(LIMIT_KIND_BYTE_DISK),
                    ),
                    LimitEvaluation::LimitExceeded(LimitExceededKind::Entries) => Err(
                        Error::limit_exceeded(LIMIT_KIND_ENTRY_DISK),
                    ),
                    LimitEvaluation::LimitSatisfied => Ok(
                        Entry::Disk(DiskEntry { name: write.name, byte_len }),
                    ),
                }
            },
        }
    }

    fn removed(&mut self, entry: Entry, outcome: Result<(), std::io::Error>) -> (r: Result<
        (),
        Error,
    >) {
        match outcome {
            Err(cause) => Err(Error::IoError(cause)),
            Ok(_) => {
                match entry {
                    Entry::Memory(entry) => {
                        proof {
                            use_type_invariant(&entry);
                        }
                        self.memory_limits.release(entry.byte_len);
                    },
                    Entry::Disk(entry) => {
                        self.disk_limits.release(entry.byte_len);
                    },
                }
                Ok(())
            },
        }
    }
}

impl RecoverableStrategy for Hybrid {
    open spec fn recovery_refusal(state: HybridView, bytes: nat, entries: nat) -> Option<
        Seq<char>,
    > {
        match state.disk.holds(bytes, entries) {
            LimitEvaluation::LimitSatisfied => None,
            LimitEvaluation::LimitExceeded(LimitExceededKind::Bytes) => Some(LIMIT_KIND_BYTE_DISK@),
            LimitEvaluation::LimitExceeded(LimitExceededKind::Entries) => Some(
                LIMIT_KIND_ENTRY_DISK@,
            ),
        }
    }

    /// Every recovered file is an entry of the disk tier.
    open spec fn after_recovery(state: HybridView, bytes: nat, entries: nat) -> HybridView {
        HybridView { disk: state.disk.registered(bytes, entries), ..state }
    }

    fn recover<K>(&mut self, found: Vec<RecoveredFile<K>>) -> (r: Result<Vec<(K, Entry)>, Error>) {
        match self.disk_limits.register_all(&found) {
            LimitEvaluation::LimitExceeded(LimitExceededKind::Bytes) => Err(
                Error::limit_exceeded(LIMIT_KIND_BYTE_DISK),
            ),
            LimitEvaluation::LimitExceeded(LimitExceededKind::Entries) => Err(
                Error::limit_exceeded(LIMIT_KIND_ENTRY_DISK),
            ),
            LimitEvaluation::LimitSatisfied => {
                let ghost files = found@;
                let mut entries: Vec<(K, Entry)> = Vec::new();
                for file in iter: found
                    invariant
                        iter.seq() == files,
                        entries@.len() == iter.index(),
                        forall|i: int|
                            0 <= i < entries@.len() ==> {
                                &&& (#[trigger] entries@[i]).0 == files[i].key
                                &&& Self::residence(&entries@[i].1) == Residence::File(
                                    files[i].name@,
                                    files[i].byte_len as nat,
                                )
                            },
                {
                    entries.push(
                        (
                            file.key,
                            Entry::Disk(DiskEntry { name: file.name, byte_len: file.byte_len }),
                        ),
                    );
                }
                Ok(entries)
            },
        }
    }
}

impl FlushableStrategy for Hybrid {
    fn flush<K: CacheKey>(&self, key: &K, entry: &Entry) -> (r: Result<Option<FileWrite>, Error>) {
        match entry {
            Entry::Disk(_) => Ok(None),
            Entry::Memory(entry) => {
                proof {
                    use_type_invariant(entry);
                }
                match self.check_disk(entry.byte_len) {
                    Err(error) => Err(error),
                    Ok(_) => Ok(Some(FileWrite { name: key.to_key(), data: entry.data.clone() })),
                }
            },
        }
    }
}

} // verus!
