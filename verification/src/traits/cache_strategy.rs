use crate::cache_capacity::CacheCapacity;
use crate::error::Error;
use crate::traits::cache_key::CacheKey;
use vstd::prelude::*;

verus! {

/// The two places in which a strategy keeps values.
#[derive(Debug, Clone, Copy)]
pub enum Tier {
    /// The value is held in memory, inside its entry.
    Memory,
    /// The value is the content of a file in the cache directory.
    File,
}

/// What an entry stands for.
pub enum Residence {
    /// The entry holds these bytes itself.
    Memory(Seq<u8>),
    /// The bytes are in the file of this name, which has this length.
    File(Seq<char>, nat),
}

impl Residence {
    /// The tier of the entry.
    pub open spec fn tier(self) -> Tier {
        match self {
            Residence::Memory(_) => Tier::Memory,
            Residence::File(_, _) => Tier::File,
        }
    }

    /// The number of bytes that the entry accounts for.
    pub open spec fn byte_len(self) -> nat {
        match self {
            Residence::Memory(data) => data.len(),
            Residence::File(_, byte_len) => byte_len,
        }
    }
}

/// What a strategy decides on a value that is offered to it.
pub enum Verdict {
    /// The value goes to this tier.
    Store(Tier),
    /// The budget of this name has no room for it.
    Refuse(Seq<char>),
}

/// The order to write `data` to the file `name` of the cache directory,
/// creating or replacing it, and to make it durable.
#[derive(Debug)]
pub struct FileWrite {
    /// The file's name, without a directory.
    pub name: String,
    /// The bytes that the file is to hold.
    pub data: Vec<u8>,
}

/// The order to read the whole file `name` of the cache directory.
#[derive(Debug)]
pub struct FileRead {
    /// The file's name, without a directory.
    pub name: String,
    /// The length that the file was recorded with: a hint for the buffer.
    pub byte_len: usize,
}

/// The order to remove the file `name` of the cache directory.
#[derive(Debug)]
pub struct FileRemove {
    /// The file's name, without a directory.
    pub name: String,
}

/// What a strategy answers to a put.
#[derive(Debug)]
pub enum Put<E> {
    /// The value is stored: this is its entry.
    Stored(E),
    /// The value has room in a file: the file is to be written first, then
    /// the strategy is told.
    Write(FileWrite),
}

/// What a strategy answers to a get.
#[derive(Debug)]
pub enum Get {
    /// The stored bytes.
    Value(Vec<u8>),
    /// The stored bytes are what this read yields.
    Read(FileRead),
}

/// What a strategy answers to a take.
#[derive(Debug)]
pub enum Take<E> {
    /// The stored bytes; the entry is released.
    Value(Vec<u8>),
    /// The stored bytes are what this read yields; the entry, handed back,
    /// is to be deleted after it.
    Read(FileRead, E),
}

/// What a strategy answers to a delete.
#[derive(Debug)]
pub enum Delete<E> {
    /// The entry is released.
    Done,
    /// The file is to be removed first, then the strategy is told, with the
    /// entry that is handed back.
    Remove(FileRemove, E),
}

/// A cache strategy: the rules by which values are admitted to tiers and
/// accounted for. A strategy performs no file operation itself: it orders
/// one, and is told when it is done.
pub trait CacheStrategy: View + Sized {
    /// This type is opaque to the cache.
    /// It is used to store information about each cached data entry.
    type CacheEntry;

    /// What `entry` stands for.
    spec fn residence(entry: &Self::CacheEntry) -> Residence;

    /// The decision on a value of `byte_len` bytes in the state `state`.
    spec fn verdict(state: Self::V, byte_len: nat) -> Verdict;

    /// The state after an entry of `byte_len` bytes was stored in `tier`.
    spec fn after_store(state: Self::V, tier: Tier, byte_len: nat) -> Self::V;

    /// The state after an entry of `byte_len` bytes of `tier` was released.
    spec fn after_release(state: Self::V, tier: Tier, byte_len: nat) -> Self::V;

    /// The byte budget and its use in the state `state`, where there is a
    /// budget that a snapshot can show.
    spec fn capacity(state: Self::V) -> Option<(usize, usize)>;

    /// Put a value into the cache.
    fn put<K: CacheKey>(&mut self, key: &K, value: Vec<u8>) -> (r: Result<
        Put<Self::CacheEntry>,
        Error,
    >)
        ensures
            match Self::verdict(old(self)@, value@.len()) {
                Verdict::Refuse(limit_kind) => {
                    &&& r matches Err(error)
                    &&& error.is_limit_exceeded(limit_kind)
                    &&& final(self)@ == old(self)@
                },
                Verdict::Store(Tier::Memory) => {
                    &&& r matches Ok(Put::Stored(entry))
                    &&& Self::residence(&entry) == Residence::Memory(value@)
                    &&& final(self)@ == Self::after_store(old(self)@, Tier::Memory, value@.len())
                },
                Verdict::Store(Tier::File) => {
                    &&& r matches Ok(Put::Write(write))
                    &&& write.name@ == key.key_spec()
                    &&& write.data@ == value@
                    &&& final(self)@ == old(self)@
                },
            },
    ;

    /// Get a value from the cache.
    fn get(&self, entry: &Self::CacheEntry) -> (r: Get)
        ensures
            match Self::residence(entry) {
                Residence::Memory(data) => r matches Get::Value(value) && value@ == data,
                Residence::File(name, byte_len) => {
                    &&& r matches Get::Read(read)
                    &&& read.name@ == name
                    &&& read.byte_len == byte_len
                },
            },
    ;

    /// Take a value from the cache, removing it.
    fn take(&mut self, entry: Self::CacheEntry) -> (r: Take<Self::CacheEntry>)
        ensures
            match Self::residence(&entry) {
                Residence::Memory(data) => {
                    &&& r matches Take::Value(value)
                    &&& value@ == data
                    &&& final(self)@ == Self::after_release(old(self)@, Tier::Memory, data.len())
                },
                Residence::File(name, byte_len) => {
                    &&& r matches Take::Read(read, kept)
                    &&& read.name@ == name
                    &&& read.byte_len == byte_len
                    &&& kept == entry
                    &&& final(self)@ == old(self)@
                },
            },
    ;

    /// Delete a value from the cache.
    fn delete(&mut self, entry: Self::CacheEntry) -> (r: Delete<Self::CacheEntry>)
        ensures
            match Self::residence(&entry) {
                Residence::Memory(data) => {
                    &&& r is Done
                    &&& final(self)@ == Self::after_release(old(self)@, Tier::Memory, data.len())
                },
                Residence::File(name, byte_len) => {
                    &&& r matches Delete::Remove(remove, kept)
                    &&& remove.name@ == name
                    &&& kept == entry
                    &&& final(self)@ == old(self)@
                },
            },
    ;

    /// A snapshot of the byte budget and its use, where there is one.
    fn get_cache_capacity(&self) -> (r: Option<CacheCapacity>)
        ensures
            match Self::capacity(self@) {
                Some((total, used)) => {
                    r matches Some(snapshot) && snapshot.total() == total && snapshot.used() == used
                },
                None => r is None,
            },
    ;
}

/// A cache strategy that keeps values in files. It orders each file
/// operation and settles its counters when it is told how the operation
/// went.
pub trait FileStrategy: CacheStrategy {
    /// The budget of the file tier that has no room for `byte_len` more
    /// bytes in the state `state`, or `None` where the value fits.
    spec fn file_refusal(state: Self::V, byte_len: nat) -> Option<Seq<char>>;

    /// A value that a put sends to a file has room there.
    proof fn lemma_file_verdict(state: Self::V, byte_len: nat)
        requires
            Self::verdict(state, byte_len) == Verdict::Store(Tier::File),
        ensures
            Self::file_refusal(state, byte_len) is None,
    ;

    /// Settles the write that was ordered as `write` and ended as `outcome`.
    /// A failed write changes nothing. A write that succeeded is counted, and
    /// its entry made, if the file tier still has room for it.
    fn written(&mut self, write: FileWrite, outcome: Result<(), std::io::Error>) -> (r: Result<
        Self::CacheEntry,
        Error,
    >)
        ensures
            match outcome {
                Err(cause) => {
                    &&& r matches Err(Error::IoError(error))
                    &&& error == cause
                    &&& final(self)@ == old(self)@
                },
                Ok(_) => match Self::file_refusal(old(self)@, write.data@.len()) {
                    Some(limit_kind) => {
                        &&& r matches Err(error)
                        &&& error.is_limit_exceeded(limit_kind)
                        &&& final(self)@ == old(self)@
                    },
                    None => {
                        &&& r matches Ok(entry)
                        &&& Self::residence(&entry) == Residence::File(
                            write.name@,
                            write.data@.len(),
                        )
                        &&& final(self)@ == Self::after_store(
                            old(self)@,
                            Tier::File,
                            write.data@.len(),
                        )
                    },
                },
            },
    ;

    /// Settles the removal of the file of `entry`, which ended as `outcome`.
    /// A failed removal changes nothing; after one that succeeded the entry
    /// is released.
    fn removed(&mut self, entry: Self::CacheEntry, outcome: Result<(), std::io::Error>) -> (r:
        Result<(), Error>)
        ensures
            match outcome {
                Err(cause) => {
                    &&& r matches Err(Error::IoError(error))
                    &&& error == cause
                    &&& final(self)@ == old(self)@
                },
                Ok(_) => {
                    &&& r is Ok
                    &&& final(self)@ == Self::after_release(
                        old(self)@,
                        Self::residence(&entry).tier(),
                        Self::residence(&entry).byte_len(),
                    )
                },
            },
    ;
}

} // verus!
