use crate::entry_map::EntryMap;
use crate::error::Error;
use crate::traits::cache_key::CacheKey;
use crate::traits::cache_strategy::{
    CacheStrategy, Delete, FileRemove, FileStrategy, FileWrite, Get, Put, Residence, Take, Tier,
    Verdict,
};
use crate::traits::compression_strategy::{decompress_ensures, CompressionStrategy};
use crate::traits::flushable_strategy::FlushableStrategy;
use crate::traits::recoverable_strategy::{
    last_file_of, total_byte_len, RecoverableStrategy, RecoveredFile,
};
use vstd::prelude::*;

verus! {

/// What the cache answers once the file of a taken entry was read.
#[derive(Debug)]
pub enum TakeRead<E> {
    /// The value; the entry is released.
    Value(Vec<u8>),
    /// The file is to be removed first, then the cache is told, with the
    /// entry and the bytes that are handed back.
    Remove(FileRemove, E, Vec<u8>),
}

/// How far a flush has come: the position up to which the entries were
/// looked at, and the number of entries that were moved to files.
#[derive(Debug, Clone, Copy)]
pub struct FlushCursor {
    position: usize,
    flushed: usize,
}

impl FlushCursor {
    #[verifier::type_invariant]
    spec fn well_formed(self) -> bool {
        self.flushed <= self.position
    }

    /// The position of the first entry that was not looked at yet.
    pub closed spec fn position(&self) -> nat {
        self.position as nat
    }

    /// The number of entries that were moved to files.
    pub closed spec fn flushed(&self) -> nat {
        self.flushed as nat
    }

    /// The cursor of a flush that starts.
    pub fn new() -> (cursor: Self)
        ensures
            cursor.position() == 0,
            cursor.flushed() == 0,
    {
        FlushCursor { position: 0, flushed: 0 }
    }
}

/// What the cache answers to a step of a flush.
#[derive(Debug)]
pub enum Flush {
    /// The next entry in memory is to be written to this file; the cache is
    /// then told, with the cursor that is handed out.
    Write(FileWrite, FlushCursor),
    /// No entry in memory is left: this many entries were moved to files.
    Finished(usize),
}

/// Binary cache.
///
/// The cache keeps one entry per key, packs values before its strategy
/// stores them, and unpacks them on the way out. It performs no file
/// operation itself: where a strategy orders one, the cache hands the order
/// out and is told later how it went.
#[derive(Debug)]
pub struct Cache<S: CacheStrategy, C: CompressionStrategy> {
    data: EntryMap<S::CacheEntry>,
    strategy: S,
    compressor: Option<C>,
}

impl<S: CacheStrategy, C: CompressionStrategy> Cache<S, C> {
    /// The cache is well formed: no key has two entries. Every cache that
    /// these functions make or change is.
    pub closed spec fn wf(&self) -> bool {
        self.data.wf()
    }

    /// The keys that have an entry, by their string forms, oldest first.
    pub closed spec fn keys(&self) -> Seq<Seq<char>> {
        self.data.keys()
    }

    /// The entries by the string forms of their keys.
    pub closed spec fn entries(&self) -> Map<Seq<char>, S::CacheEntry> {
        self.data.map()
    }

    /// The state of the strategy.
    pub closed spec fn state(&self) -> S::V {
        self.strategy@
    }

    /// The compressor, if there is one.
    pub closed spec fn compressor(&self) -> Option<C> {
        self.compressor
    }

    /// In a well-formed cache the keys are the keys of the entries, each of
    /// them once.
    pub proof fn lemma_keys(&self)
        requires
            self.wf(),
        ensures
            self.keys().no_duplicates(),
            forall|name: Seq<char>|
                self.entries().contains_key(name) <==> #[trigger] self.keys().contains(name),
    {
    }

    /// The entry of the key at the position `i` of [`Self::keys`].
    pub open spec fn entry_at(&self, i: int) -> S::CacheEntry {
        self.entries()[self.keys()[i]]
    }

    /// The two caches hold the same entries and the same compressor.
    pub open spec fn same_entries(&self, before: &Self) -> bool {
        &&& self.keys() == before.keys()
        &&& self.entries() == before.entries()
        &&& self.compressor() == before.compressor()
    }

    /// The two caches differ in nothing that the contracts speak of.
    pub open spec fn unchanged(&self, before: &Self) -> bool {
        &&& self.same_entries(before)
        &&& self.state() == before.state()
    }

    /// This cache holds what `before` held, and under `name` an entry that
    /// stands for `residence`, in the place of the one that `before` had
    /// there or else as the newest.
    pub open spec fn has_put(&self, before: &Self, name: Seq<char>, residence: Residence) -> bool {
        &&& self.compressor() == before.compressor()
        &&& self.entries() == before.entries().insert(name, self.entries()[name])
        &&& S::residence(&self.entries()[name]) == residence
        &&& self.keys() == if before.entries().contains_key(name) {
            before.keys()
        } else {
            before.keys().push(name)
        }
    }

    /// This cache holds what `before` held, but for the entry under `name`.
    pub open spec fn has_removed(&self, before: &Self, name: Seq<char>) -> bool {
        &&& self.compressor() == before.compressor()
        &&& self.entries() == before.entries().remove(name)
        &&& self.keys() == before.keys().remove(before.keys().index_of(name))
    }

    /// Whether `r` is the answer of the compressor `compressor` to the
    /// request to unpack `packed`: the value where the bytes are the packing
    /// of one, else an error of the compressor.
    pub open spec fn unpacks(compressor: Option<C>, packed: Seq<u8>, r: Result<Vec<u8>, Error>)
        -> bool {
        decompress_ensures(&compressor, packed, r)
    }

    /// What it comes to when `before` is asked to store the packed bytes
    /// `packed` under `name`: `r` is the answer and `after` the cache then.
    /// A refusal changes nothing. A value for the memory tier is stored at
    /// once. A value for a file is handed out as a write, and nothing changes
    /// until the write is settled.
    pub open spec fn stores(
        before: &Self,
        name: Seq<char>,
        packed: Seq<u8>,
        r: Result<Option<FileWrite>, Error>,
        after: &Self,
    ) -> bool {
        match S::verdict(before.state(), packed.len()) {
            Verdict::Refuse(limit_kind) => {
                &&& r matches Err(error)
                &&& error.is_limit_exceeded(limit_kind)
                &&& after.unchanged(before)
            },
            Verdict::Store(Tier::Memory) => {
                &&& r matches Ok(None)
                &&& after.has_put(before, name, Residence::Memory(packed))
                &&& after.state() == S::after_store(before.state(), Tier::Memory, packed.len())
            },
            Verdict::Store(Tier::File) => {
                &&& r matches Ok(Some(write))
                &&& write.name@ == name
                &&& write.data@ == packed
                &&& after.unchanged(before)
            },
        }
    }

    /// What it comes to when the compressor has answered `answer` to the
    /// value of a put under `name`. An error of the compressor is the answer
    /// of the put, as it is, and nothing changes. A packing is stored as
    /// [`Self::stores`] says.
    pub open spec fn put_answer_ensures(
        before: &Self,
        name: Seq<char>,
        answer: Result<Vec<u8>, Error>,
        r: Result<Option<FileWrite>, Error>,
        after: &Self,
    ) -> bool {
        match answer {
            Err(error) => {
                &&& r matches Err(out)
                &&& out == error
                &&& after.unchanged(before)
            },
            Ok(packed) => Self::stores(before, name, packed@, r, after),
        }
    }

    /// What a put of `value` under `name` comes to. Where the compressor
    /// packs the value, the packing is one that it unpacks to the value, and
    /// it is stored as [`Self::stores`] says. Where the compressor fails, the
    /// answer is its error, and nothing changes.
    pub open spec fn put_ensures(
        before: &Self,
        name: Seq<char>,
        value: Seq<u8>,
        r: Result<Option<FileWrite>, Error>,
        after: &Self,
    ) -> bool {
        match before.compressor().packed(value) {
            Some(packed) => {
                &&& before.compressor().unpacked(packed) == Some(value)
                &&& Self::stores(before, name, packed, r, after)
            },
            None => {
                &&& r matches Err(error)
                &&& before.compressor().pack_error(value, error)
                &&& after.unchanged(before)
            },
        }
    }

    /// What a get of `name` comes to. An absent key is answered with
    /// [`Error::KeyNotFound`]. The bytes of an entry in memory are unpacked:
    /// the answer is the value, or the error of the compressor where it
    /// fails. An entry in a file is handed out as the read that yields its
    /// bytes, which [`Self::get_read`] then unpacks.
    pub open spec fn get_ensures(&self, name: Seq<char>, r: Result<Get, Error>) -> bool {
        if !self.entries().contains_key(name) {
            r matches Err(Error::KeyNotFound)
        } else {
            match S::residence(&self.entries()[name]) {
                Residence::Memory(packed) => match r {
                    Ok(Get::Value(value)) => Self::unpacks(self.compressor(), packed, Ok(value)),
                    Ok(Get::Read(_)) => false,
                    Err(error) => Self::unpacks(self.compressor(), packed, Err(error)),
                },
                Residence::File(file, byte_len) => {
                    &&& r matches Ok(Get::Read(read))
                    &&& read.name@ == file
                    &&& read.byte_len == byte_len
                },
            }
        }
    }

    /// What it comes to when a read that the cache handed out ended as
    /// `outcome`: a failed read is its error, and bytes are unpacked.
    pub open spec fn read_ensures(
        &self,
        outcome: Result<Vec<u8>, std::io::Error>,
        r: Result<Vec<u8>, Error>,
    ) -> bool {
        match outcome {
            Err(cause) => r matches Err(Error::IoError(error)) && error == cause,
            Ok(packed) => Self::unpacks(self.compressor(), packed@, r),
        }
    }

    /// What a take of `name` comes to. An absent key is an error and changes
    /// nothing. Else the key has no entry afterwards, whatever follows. An
    /// entry in memory is released and its bytes unpacked. An entry in a file
    /// is handed out with the read that yields its bytes.
    pub open spec fn take_ensures(
        before: &Self,
        name: Seq<char>,
        r: Result<Take<S::CacheEntry>, Error>,
        after: &Self,
    ) -> bool {
        if !before.entries().contains_key(name) {
            r matches Err(Error::KeyNotFound) && after.unchanged(before)
        } else {
            &&& after.has_removed(before, name)
            &&& match S::residence(&before.entries()[name]) {
                Residence::Memory(packed) => {
                    &&& after.state() == S::after_release(
                        before.state(),
                        Tier::Memory,
                        packed.len(),
                    )
                    &&& match r {
                        Ok(Take::Value(value)) => Self::unpacks(
                            before.compressor(),
                            packed,
                            Ok(value),
                        ),
                        Ok(Take::Read(_, _)) => false,
                        Err(error) => Self::unpacks(before.compressor(), packed, Err(error)),
                    }
                },
                Residence::File(file, byte_len) => {
                    &&& r matches Ok(Take::Read(read, entry))
                    &&& read.name@ == file
                    &&& read.byte_len == byte_len
                    &&& entry == before.entries()[name]
                    &&& after.state() == before.state()
                },
            }
        }
    }

    /// What a delete of `name` comes to. An absent key is an error and
    /// changes nothing. Else the key has no entry afterwards. An entry in
    /// memory is released. An entry in a file is handed out with the order to
    /// remove the file.
    pub open spec fn delete_ensures(
        before: &Self,
        name: Seq<char>,
        r: Result<Delete<S::CacheEntry>, Error>,
        after: &Self,
    ) -> bool {
        if !before.entries().contains_key(name) {
            r matches Err(Error::KeyNotFound) && after.unchanged(before)
        } else {
            &&& after.has_removed(before, name)
            &&& match S::residence(&before.entries()[name]) {
                Residence::Memory(packed) => {
                    &&& r matches Ok(Delete::Done)
                    &&& after.state() == S::after_release(
                        before.state(),
                        Tier::Memory,
                        packed.len(),
                    )
                },
                Residence::File(file, byte_len) => {
                    &&& r matches Ok(Delete::Remove(remove, entry))
                    &&& remove.name@ == file
                    &&& entry == before.entries()[name]
                    &&& after.state() == before.state()
                },
            }
        }
    }

    /// Create a new [Cache]. It holds no entry.
    pub fn new(strategy: S, compressor: Option<C>) -> (cache: Self)
        ensures
            cache.wf(),
            cache.keys() == Seq::<Seq<char>>::empty(),
            cache.entries() == Map::<Seq<char>, S::CacheEntry>::empty(),
            cache.state() == strategy@,
            cache.compressor() == compressor,
    {
        Cache { data: EntryMap::new(), strategy, compressor }
    }

    /// The strategy of the cache.
    pub fn strategy(&self) -> (strategy: &S)
        ensures
            strategy@ == self.state(),
    {
        &self.strategy
    }

    /// Put an entry into the cache.
    ///
    /// An entry that the key had before is dropped from the cache without
    /// being deleted: what it occupied stays occupied. Delete the key first
    /// where that matters.
    pub fn put<K: CacheKey>(&mut self, key: K, value: Vec<u8>) -> (r: Result<
        Option<FileWrite>,
        Error,
    >)
        requires
            old(self).wf(),
        ensures
            final(self).wf(),
            Self::put_ensures(old(self), key.key_spec(), value@, r, final(self)),
    {
        let answer = self.compressor.compress(value);
        self.put_answer(key, answer)
    }

    /// Goes on with a put once the compressor has answered: its error is
    /// handed on as it is, and its packing is stored.
    pub fn put_answer<K: CacheKey>(&mut self, key: K, answer: Result<Vec<u8>, Error>) -> (r:
        Result<Option<FileWrite>, Error>)
        requires
            old(self).wf(),
        ensures
            final(self).wf(),
            Self::put_answer_ensures(old(self), key.key_spec(), answer, r, final(self)),
    {
        match answer {
            Err(error) => Err(error),
            Ok(packed) => self.put_packed(key, packed),
        }
    }

    /// Put bytes into the cache that are packed already.
    pub fn put_packed<K: CacheKey>(&mut self, key: K, packed: Vec<u8>) -> (r: Result<
        Option<FileWrite>,
        Error,
    >)
        requires
            old(self).wf(),
        ensures
            final(self).wf(),
            Self::stores(old(self), key.key_spec(), packed@, r, final(self)),
    {
        match self.strategy.put(&key, packed) {
            Err(error) => Err(error),
            Ok(Put::Stored(entry)) => {
                self.data.insert(key.to_key(), entry);
                Ok(None)
            },
            Ok(Put::Write(write)) => Ok(Some(write)),
        }
    }

    /// Get an entry from the cache.
    pub fn get<K: CacheKey>(&self, key: K) -> (r: Result<Get, Error>)
        requires
            self.wf(),
        ensures
            self.get_ensures(key.key_spec(), r),
    {
        let name = key.to_key();
        match self.data.find(&name) {
            None => Err(Error::KeyNotFound),
            Some(position) => match self.strategy.get(self.data.entry(position)) {
                Get::Value(packed) => match self.compressor.decompress(packed) {
                    Ok(value) => Ok(Get::Value(value)),
                    Err(error) => Err(error),
                },
                Get::Read(read) => Ok(Get::Read(read)),
            },
        }
    }

    /// Unpacks what a read yielded that [`Self::get`] handed out.
    pub fn get_read(&self, outcome: Result<Vec<u8>, std::io::Error>) -> (r: Result<Vec<u8>, Error>)
        ensures
            self.read_ensures(outcome, r),
    {
        match outcome {
            Err(cause) => Err(Error::IoError(cause)),
            Ok(packed) => self.compressor.decompress(packed),
        }
    }

    /// Take an entry from the cache, removing it.
    pub fn take<K: CacheKey>(&mut self, key: K) -> (r: Result<Take<S::CacheEntry>, Error>)
        requires
            old(self).wf(),
        ensures
            final(self).wf(),
            Self::take_ensures(old(self), key.key_spec(), r, final(self)),
    {
        let name = key.to_key();
        match self.data.find(&name) {
            None => Err(Error::KeyNotFound),
            Some(position) => {
                proof {
                    self.data.lemma_map_at(position as int);
                }
                let slot = self.data.remove(position);
                match self.strategy.take(slot.1) {
                    Take::Value(packed) => match self.compressor.decompress(packed) {
                        Ok(value) => Ok(Take::Value(value)),
                        Err(error) => Err(error),
                    },
                    Take::Read(read, entry) => Ok(Take::Read(read, entry)),
                }
            },
        }
    }

    /// Delete an entry from the cache.
    pub fn delete<K: CacheKey>(&mut self, key: K) -> (r: Result<Delete<S::CacheEntry>, Error>)
        requires
            old(self).wf(),
        ensures
            final(self).wf(),
            Self::delete_ensures(old(self), key.key_spec(), r, final(self)),
    {
        let name = key.to_key();
        match self.data.find(&name) {
            None => Err(Error::KeyNotFound),
            Some(position) => {
                proof {
                    self.data.lemma_map_at(position as int);
                }
                let slot = self.data.remove(position);
                Ok(self.strategy.delete(slot.1))
            },
        }
    }

    /// Check if the key has an entry.
    pub fn contains_key<K: CacheKey>(&self, key: K) -> (found: bool)
        requires
            self.wf(),
        ensures
            found == self.entries().contains_key(key.key_spec()),
    {
        let name = key.to_key();
        self.data.find(&name).is_some()
    }
}

impl<S: CacheStrategy, C: CompressionStrategy> Cache<S, C> {
    /// A put that is answered with an error changes nothing: what was stored
    /// before is read as before.
    pub proof fn lemma_failed_put_changes_nothing(
        before: &Self,
        after: &Self,
        name: Seq<char>,
        value: Seq<u8>,
        put: Result<Option<FileWrite>, Error>,
    )
        requires
            Self::put_ensures(before, name, value, put, after),
            put is Err,
        ensures
            after.unchanged(before),
            forall|other: Seq<char>, got: Result<Get, Error>|
                after.get_ensures(other, got) == before.get_ensures(other, got),
    {
    }

    /// A value that a put has stored stays readable when a later put of
    /// another key is answered with an error, be it a refusal of the strategy
    /// or the error of the compressor: a get of the first key answers with its
    /// value.
    pub proof fn lemma_get_after_failed_put(
        before: &Self,
        stored: &Self,
        after: &Self,
        name: Seq<char>,
        value: Seq<u8>,
        other: Seq<char>,
        other_value: Seq<u8>,
        put: Result<Option<FileWrite>, Error>,
        failed: Result<Option<FileWrite>, Error>,
        got: Result<Get, Error>,
    )
        requires
            Self::put_ensures(before, name, value, put, stored),
            put matches Ok(None),
            Self::put_ensures(stored, other, other_value, failed, after),
            failed is Err,
            after.get_ensures(name, got),
        ensures
            after.unchanged(stored),
            got matches Ok(Get::Value(out)) && out@ == value,
    {
    }

    /// A value that a put has stored is what a get of the key yields, with
    /// every strategy and every compressor: the get answers with the value,
    /// and with nothing else.
    pub proof fn lemma_get_after_put(
        before: &Self,
        after: &Self,
        name: Seq<char>,
        value: Seq<u8>,
        put: Result<Option<FileWrite>, Error>,
        got: Result<Get, Error>,
    )
        requires
            Self::put_ensures(before, name, value, put, after),
            put matches Ok(None),
            after.get_ensures(name, got),
        ensures
            after.entries().contains_key(name),
            got matches Ok(Get::Value(out)) && out@ == value,
    {
    }

    /// A value that a put has stored is what a take of the key yields, and
    /// after the take the key has no entry: a get of it answers
    /// [`Error::KeyNotFound`].
    pub proof fn lemma_take_after_put(
        before: &Self,
        after: &Self,
        last: &Self,
        name: Seq<char>,
        value: Seq<u8>,
        put: Result<Option<FileWrite>, Error>,
        taken: Result<Take<S::CacheEntry>, Error>,
    )
        requires
            Self::put_ensures(before, name, value, put, after),
            put matches Ok(None),
            Self::take_ensures(after, name, taken, last),
        ensures
            taken matches Ok(Take::Value(out)) && out@ == value,
            !last.entries().contains_key(name),
            forall|got: Result<Get, Error>| #[trigger]
                last.get_ensures(name, got) ==> got matches Err(Error::KeyNotFound),
            last.state() == S::after_release(after.state(), Tier::Memory, S::residence(
                &after.entries()[name],
            ).byte_len()),
    {
    }

    /// After a delete the key has no entry: a get of it answers
    /// [`Error::KeyNotFound`], and the other keys have the entries that they
    /// had.
    pub proof fn lemma_get_after_delete(
        before: &Self,
        after: &Self,
        name: Seq<char>,
        deleted: Result<Delete<S::CacheEntry>, Error>,
    )
        requires
            Self::delete_ensures(before, name, deleted, after),
        ensures
            !after.entries().contains_key(name),
            forall|got: Result<Get, Error>| #[trigger]
                after.get_ensures(name, got) ==> got matches Err(Error::KeyNotFound),
            forall|other: Seq<char>, got: Result<Get, Error>|
                other != name ==> after.get_ensures(other, got) == before.get_ensures(other, got),
    {
    }
}

impl<S: FileStrategy, C: CompressionStrategy> Cache<S, C> {
    /// What it comes to when the write `write`, which a put handed out,
    /// ended as `outcome`. A failed write changes nothing. After a write that
    /// succeeded, the value is counted and its entry stored under the file's
    /// name, if the file tier still has room for it.
    pub open spec fn written_ensures(
        before: &Self,
        write: FileWrite,
        outcome: Result<(), std::io::Error>,
        r: Result<(), Error>,
        after: &Self,
    ) -> bool {
        match outcome {
            Err(cause) => {
                &&& r matches Err(Error::IoError(error))
                &&& error == cause
                &&& after.unchanged(before)
            },
            Ok(_) => match S::file_refusal(before.state(), write.data@.len()) {
                Some(limit_kind) => {
                    &&& r matches Err(error)
                    &&& error.is_limit_exceeded(limit_kind)
                    &&& after.unchanged(before)
                },
                None => {
                    &&& r is Ok
                    &&& after.has_put(
                        before,
                        write.name@,
                        Residence::File(write.name@, write.data@.len()),
                    )
                    &&& after.state() == S::after_store(
                        before.state(),
                        Tier::File,
                        write.data@.len(),
                    )
                },
            },
        }
    }

    /// What it comes to when the read of the taken entry `entry` ended as
    /// `outcome`. The entries of the cache stay as they are. A failed read is
    /// its error, and the strategy is unchanged. After a read that
    /// succeeded, the entry is deleted: the order to remove its file is
    /// handed out, with the entry and the bytes read.
    pub open spec fn take_read_ensures(
        before: &Self,
        entry: S::CacheEntry,
        outcome: Result<Vec<u8>, std::io::Error>,
        r: Result<TakeRead<S::CacheEntry>, Error>,
        after: &Self,
    ) -> bool {
        &&& after.same_entries(before)
        &&& match outcome {
            Err(cause) => {
                &&& r matches Err(Error::IoError(error))
                &&& error == cause
                &&& after.state() == before.state()
            },
            Ok(packed) => match S::residence(&entry) {
                Residence::Memory(data) => {
                    &&& after.state() == S::after_release(
                        before.state(),
                        Tier::Memory,
                        data.len(),
                    )
                    &&& match r {
                        Ok(TakeRead::Value(value)) => Self::unpacks(
                            before.compressor(),
                            packed@,
                            Ok(value),
                        ),
                        Ok(TakeRead::Remove(_, _, _)) => false,
                        Err(error) => Self::unpacks(before.compressor(), packed@, Err(error)),
                    }
                },
                Residence::File(file, _) => {
                    &&& r matches Ok(TakeRead::Remove(remove, kept, bytes))
                    &&& remove.name@ == file
                    &&& kept == entry
                    &&& bytes@ == packed@
                    &&& after.state() == before.state()
                },
            },
        }
    }

    /// What it comes to when the removal of the file of `entry` ended as
    /// `outcome`. The entries of the cache stay as they are. A failed removal
    /// is its error, and the strategy is unchanged; after one that succeeded
    /// the entry is released.
    pub open spec fn removed_ensures(
        before: &Self,
        entry: S::CacheEntry,
        outcome: Result<(), std::io::Error>,
        r: Result<(), Error>,
        after: &Self,
    ) -> bool {
        &&& after.same_entries(before)
        &&& match outcome {
            Err(cause) => {
                &&& r matches Err(Error::IoError(error))
                &&& error == cause
                &&& after.state() == before.state()
            },
            Ok(_) => {
                &&& r is Ok
                &&& after.state() == S::after_release(
                    before.state(),
                    S::residence(&entry).tier(),
                    S::residence(&entry).byte_len(),
                )
            },
        }
    }

    /// What it comes to when the removal of the file of the taken entry
    /// `entry`, whose bytes `packed` were read before, ended as `outcome`:
    /// the removal is settled as [`Self::removed_ensures`] says, and after
    /// one that succeeded the bytes are unpacked.
    pub open spec fn take_removed_ensures(
        before: &Self,
        entry: S::CacheEntry,
        packed: Seq<u8>,
        outcome: Result<(), std::io::Error>,
        r: Result<Vec<u8>, Error>,
        after: &Self,
    ) -> bool {
        match outcome {
            Err(cause) => {
                &&& Self::removed_ensures(before, entry, outcome, Err(Error::IoError(cause)), after)
                &&& r matches Err(Error::IoError(error))
                &&& error == cause
            },
            Ok(_) => {
                &&& Self::removed_ensures(before, entry, outcome, Ok(()), after)
                &&& Self::unpacks(before.compressor(), packed, r)
            },
        }
    }

    /// A value that a put has sent to a file is what a get of the key
    /// yields, once the write is settled: the get orders the read of the file
    /// that was written, at the length that was written, and the bytes that
    /// were written are unpacked to the value.
    pub proof fn lemma_get_after_written_put(
        before: &Self,
        ordered: &Self,
        after: &Self,
        name: Seq<char>,
        value: Seq<u8>,
        write: FileWrite,
        got: Result<Get, Error>,
        read_back: Result<Vec<u8>, Error>,
    )
        requires
            Self::put_ensures(before, name, value, Ok(Some(write)), ordered),
            Self::written_ensures(ordered, write, Ok(()), Ok(()), after),
            after.get_ensures(name, got),
            after.read_ensures(Ok(write.data), read_back),
        ensures
            write.name@ == name,
            got matches Ok(Get::Read(read)) && read.name@ == name && read.byte_len
                == write.data@.len(),
            read_back matches Ok(out) && out@ == value,
    {
    }

    /// A value that a put has sent to a file is what a take of the key
    /// yields, once each file operation is settled: the take orders the read
    /// of the file that was written and then its removal, the bytes that were
    /// written are unpacked to the value, and the strategy has released what
    /// the write had stored. After the take the key has no entry.
    pub proof fn lemma_take_after_written_put(
        before: &Self,
        ordered: &Self,
        stored: &Self,
        taking: &Self,
        reading: &Self,
        last: &Self,
        name: Seq<char>,
        value: Seq<u8>,
        write: FileWrite,
        taken: Result<Take<S::CacheEntry>, Error>,
        read: Result<TakeRead<S::CacheEntry>, Error>,
        out: Result<Vec<u8>, Error>,
    )
        requires
            Self::put_ensures(before, name, value, Ok(Some(write)), ordered),
            Self::written_ensures(ordered, write, Ok(()), Ok(()), stored),
            Self::take_ensures(stored, name, taken, taking),
            taken matches Ok(Take::Read(_, entry)) && Self::take_read_ensures(
                taking,
                entry,
                Ok(write.data),
                read,
                reading,
            ),
            read matches Ok(TakeRead::Remove(_, entry, packed)) && Self::take_removed_ensures(
                reading,
                entry,
                packed@,
                Ok(()),
                out,
                last,
            ),
        ensures
            taken matches Ok(Take::Read(order, _)) && order.name@ == name && order.byte_len
                == write.data@.len(),
            read matches Ok(TakeRead::Remove(order, _, _)) && order.name@ == name,
            out matches Ok(bytes) && bytes@ == value,
            !last.entries().contains_key(name),
            last.state() == S::after_release(
                S::after_store(before.state(), Tier::File, write.data@.len()),
                Tier::File,
                write.data@.len(),
            ),
    {
    }

    /// Settles a write that [`Self::put`] handed out and that ended as
    /// `outcome`.
    pub fn put_written(&mut self, write: FileWrite, outcome: Result<(), std::io::Error>) -> (r:
        Result<(), Error>)
        requires
            old(self).wf(),
        ensures
            final(self).wf(),
            Self::written_ensures(old(self), write, outcome, r, final(self)),
    {
        let name = write.name.clone();
        match self.strategy.written(write, outcome) {
            Err(error) => Err(error),
            Ok(entry) => {
                self.data.insert(name, entry);
                Ok(())
            },
        }
    }

    /// Goes on with a take after the read that [`Self::take`] handed out
    /// ended as `outcome`.
    pub fn take_read(&mut self, entry: S::CacheEntry, outcome: Result<Vec<u8>, std::io::Error>)
        -> (r: Result<TakeRead<S::CacheEntry>, Error>)
        ensures
            old(self).wf() ==> final(self).wf(),
            Self::take_read_ensures(old(self), entry, outcome, r, final(self)),
    {
        match outcome {
            Err(cause) => Err(Error::IoError(cause)),
            Ok(packed) => match self.strategy.delete(entry) {
                Delete::Done => match self.compressor.decompress(packed) {
                    Ok(value) => Ok(TakeRead::Value(value)),
                    Err(error) => Err(error),
                },
                Delete::Remove(remove, kept) => Ok(TakeRead::Remove(remove, kept, packed)),
            },
        }
    }

    /// Ends a take after the removal that [`Self::take_read`] handed out
    /// ended as `outcome`.
    pub fn take_removed(
        &mut self,
        entry: S::CacheEntry,
        packed: Vec<u8>,
        outcome: Result<(), std::io::Error>,
    ) -> (r: Result<Vec<u8>, Error>)
        ensures
            old(self).wf() ==> final(self).wf(),
            Self::take_removed_ensures(old(self), entry, packed@, outcome, r, final(self)),
    {
        match self.strategy.removed(entry, outcome) {
            Err(error) => Err(error),
            Ok(_) => self.compressor.decompress(packed),
        }
    }

    /// Ends a delete after the removal that [`Self::delete`] handed out
    /// ended as `outcome`.
    pub fn delete_removed(&mut self, entry: S::CacheEntry, outcome: Result<(), std::io::Error>)
        -> (r: Result<(), Error>)
        ensures
            old(self).wf() ==> final(self).wf(),
            Self::removed_ensures(old(self), entry, outcome, r, final(self)),
    {
        self.strategy.removed(entry, outcome)
    }
}

impl<S: RecoverableStrategy, C: CompressionStrategy> Cache<S, C> {
    /// This cache holds what `before` held and the files `found`, each under
    /// its key. The last file of a key is its entry; the keys that `before`
    /// had keep their places, and a key without a file keeps its entry.
    pub open spec fn has_recovered<K: CacheKey>(
        &self,
        before: &Self,
        found: Seq<RecoveredFile<K>>,
    ) -> bool {
        &&& self.compressor() == before.compressor()
        &&& before.keys().is_prefix_of(self.keys())
        &&& forall|name: Seq<char>|
            match #[trigger] last_file_of(found, name) {
                Some(i) => {
                    &&& self.entries().contains_key(name)
                    &&& S::residence(&self.entries()[name]) == Residence::File(
                        found[i].name@,
                        found[i].byte_len as nat,
                    )
                },
                None => {
                    &&& self.entries().contains_key(name) == before.entries().contains_key(name)
                    &&& before.entries().contains_key(name) ==> self.entries()[name]
                        == before.entries()[name]
                },
            }
    }

    /// What a recovery of the files `found` comes to. Where the counters of
    /// the strategy cannot hold the files, nothing changes. Else every file
    /// is registered, and the answer is their number.
    pub open spec fn recover_ensures<K: CacheKey>(
        before: &Self,
        found: Seq<RecoveredFile<K>>,
        r: Result<usize, Error>,
        after: &Self,
    ) -> bool {
        match S::recovery_refusal(before.state(), total_byte_len(found), found.len()) {
            Some(limit_kind) => {
                &&& r matches Err(error)
                &&& error.is_limit_exceeded(limit_kind)
                &&& after.unchanged(before)
            },
            None => {
                &&& r matches Ok(count)
                &&& count == found.len()
                &&& after.has_recovered(before, found)
                &&& after.state() == S::after_recovery(
                    before.state(),
                    total_byte_len(found),
                    found.len(),
                )
            },
        }
    }

    /// Recover the cache from a previous state: `found` are the files of the
    /// cache directory that recovery has read, in the order of the listing.
    /// Returns the number of recovered items.
    ///
    /// ## When to recover
    /// Useful after a crash or unplanned restart. It's good practice to
    /// recover on startup, but it depends on your specific use case.
    pub fn recover<K: CacheKey>(&mut self, found: Vec<RecoveredFile<K>>) -> (r: Result<
        usize,
        Error,
    >)
        requires
            old(self).wf(),
        ensures
            final(self).wf(),
            Self::recover_ensures(old(self), found@, r, final(self)),
    {
        let ghost files = found@;
        let entries = match self.strategy.recover(found) {
            Err(error) => {
                return Err(error);
            },
            Ok(entries) => entries,
        };
        let count = entries.len();
        let ghost pairs = entries@;
        for pair in iter: entries
            invariant
                iter.seq() == pairs,
                pairs.len() == files.len(),
                forall|i: int|
                    0 <= i < files.len() ==> {
                        &&& (#[trigger] pairs[i]).0 == files[i].key
                        &&& S::residence(&pairs[i].1) == Residence::File(
                            files[i].name@,
                            files[i].byte_len as nat,
                        )
                    },
                self.wf(),
                self.state() == S::after_recovery(
                    old(self).state(),
                    total_byte_len(files),
                    files.len(),
                ),
                self.has_recovered(old(self), files.take(iter.index())),
        {
            let ghost done = iter.index();
            let name = pair.0.to_key();
            self.data.insert(name, pair.1);
            proof {
                assert(files.take(done + 1).drop_last() == files.take(done));
                assert forall|other: Seq<char>|
                    match #[trigger] last_file_of(files.take(done + 1), other) {
                        Some(i) => {
                            &&& self.entries().contains_key(other)
                            &&& S::residence(&self.entries()[other]) == Residence::File(
                                files.take(done + 1)[i].name@,
                                files.take(done + 1)[i].byte_len as nat,
                            )
                        },
                        None => {
                            &&& self.entries().contains_key(other) == old(
                                self,
                            ).entries().contains_key(other)
                            &&& old(self).entries().contains_key(other) ==> self.entries()[other]
                                == old(self).entries()[other]
                        },
                    } by {
                    if other != name@ {
                        lemma_last_file_in_range(files.take(done), other);
                    }
                }
            }
        }
        proof {
            assert(files.take(files.len() as int) == files);
        }
        Ok(count)
    }
}

/// The position that [`last_file_of`] names is one of `found`, and the file
/// there stands for `name`.
pub proof fn lemma_last_file_in_range<K: CacheKey>(found: Seq<RecoveredFile<K>>, name: Seq<char>)
    ensures
        last_file_of(found, name) matches Some(i) ==> 0 <= i < found.len()
            && found[i].key.key_spec() == name,
    decreases found.len(),
{
    if found.len() > 0 && found.last().key.key_spec() != name {
        lemma_last_file_in_range(found.drop_last(), name);
    }
}

impl<S: FlushableStrategy, C: CompressionStrategy> Cache<S, C> {
    /// The position of the first entry in memory at or after the position
    /// `from`, or the number of keys where there is none.
    pub open spec fn next_in_memory(&self, from: int) -> int
        decreases self.keys().len() - from,
    {
        if 0 <= from < self.keys().len() {
            if S::residence(&self.entry_at(from)) is Memory {
                from
            } else {
                self.next_in_memory(from + 1)
            }
        } else {
            self.keys().len() as int
        }
    }

    /// What a step of a flush comes to. The entries are looked at in the
    /// order of their keys, from the cursor on. Without an entry in memory
    /// the flush is finished, and the answer is the number that the cursor
    /// has counted. Else the first entry in memory is to be written to the
    /// file named by its key, if the file tier has room for it; if not, the
    /// flush stops with the error.
    pub open spec fn flush_ensures(&self, cursor: FlushCursor, r: Result<Flush, Error>) -> bool {
        let next = self.next_in_memory(cursor.position() as int);
        if next >= self.keys().len() {
            r matches Ok(Flush::Finished(count)) && count == cursor.flushed()
        } else {
            match S::file_refusal(self.state(), S::residence(&self.entry_at(next)).byte_len()) {
                Some(limit_kind) => r matches Err(error) && error.is_limit_exceeded(limit_kind),
                None => {
                    &&& r matches Ok(Flush::Write(write, at))
                    &&& write.name@ == self.keys()[next]
                    &&& Residence::Memory(write.data@) == S::residence(&self.entry_at(next))
                    &&& at.position() == next
                    &&& at.flushed() == cursor.flushed()
                },
            }
        }
    }

    /// What it comes to when the write `write`, which a step of a flush
    /// handed out with `cursor`, ended as `outcome`. Where the cursor does
    /// not stand at the key that the file is named by, the answer is
    /// [`Error::KeyNotFound`], and nothing changes. A failed write changes
    /// nothing either, nor one that the file tier has no more room for. Else
    /// the entry in the file takes the place of the entry of the key, which
    /// is released, and the cursor moves on by one entry.
    pub open spec fn flushed_ensures(
        before: &Self,
        cursor: FlushCursor,
        write: FileWrite,
        outcome: Result<(), std::io::Error>,
        r: Result<FlushCursor, Error>,
        after: &Self,
    ) -> bool {
        let at = cursor.position() as int;
        if !(at < before.keys().len() && before.keys()[at] == write.name@) {
            r matches Err(Error::KeyNotFound) && after.unchanged(before)
        } else {
            match outcome {
                Err(cause) => {
                    &&& r matches Err(Error::IoError(error))
                    &&& error == cause
                    &&& after.unchanged(before)
                },
                Ok(_) => match S::file_refusal(before.state(), write.data@.len()) {
                    Some(limit_kind) => {
                        &&& r matches Err(error)
                        &&& error.is_limit_exceeded(limit_kind)
                        &&& after.unchanged(before)
                    },
                    None => {
                        &&& r matches Ok(next)
                        &&& next.position() == at + 1
                        &&& next.flushed() == cursor.flushed() + 1
                        &&& after.has_put(
                            before,
                            write.name@,
                            Residence::File(write.name@, write.data@.len()),
                        )
                        &&& after.state() == S::after_release(
                            S::after_store(before.state(), Tier::File, write.data@.len()),
                            S::residence(&before.entry_at(at)).tier(),
                            S::residence(&before.entry_at(at)).byte_len(),
                        )
                    },
                },
            }
        }
    }

    /// Where every entry from the position `from` on is in a file, no
    /// entry in memory is found from there.
    pub proof fn lemma_nothing_in_memory(&self, from: int)
        requires
            0 <= from,
            forall|i: int|
                from <= i < self.keys().len() ==> S::residence(&#[trigger] self.entry_at(i))
                    is File,
        ensures
            self.next_in_memory(from) == self.keys().len(),
        decreases self.keys().len() - from,
    {
        if from < self.keys().len() {
            self.lemma_nothing_in_memory(from + 1);
        }
    }

    /// Where two caches have the same entries from the position `from` on,
    /// the first entry in memory from there is at the same position in both.
    pub proof fn lemma_next_in_memory_of_same_entries(&self, other: &Self, from: int)
        requires
            0 <= from,
            self.keys().len() == other.keys().len(),
            forall|i: int|
                from <= i < self.keys().len() ==> #[trigger] self.entry_at(i) == other.entry_at(i),
        ensures
            self.next_in_memory(from) == other.next_in_memory(from),
        decreases self.keys().len() - from,
    {
        if from < self.keys().len() {
            self.lemma_next_in_memory_of_same_entries(other, from + 1);
        }
    }

    /// A write of a flush that is settled with success has moved one entry to
    /// a file and nothing else: the keys are what they were, the entry at the
    /// cursor stands for the file that was written, every other entry is what
    /// it was, and the flush goes on where it would have gone on anyway.
    pub proof fn lemma_flushed_moves_one_entry(
        before: &Self,
        after: &Self,
        cursor: FlushCursor,
        write: FileWrite,
        outcome: Result<(), std::io::Error>,
        next: FlushCursor,
    )
        requires
            before.wf(),
            Self::flushed_ensures(before, cursor, write, outcome, Ok(next), after),
        ensures
            after.keys() == before.keys(),
            S::residence(&after.entry_at(cursor.position() as int)) == Residence::File(
                write.name@,
                write.data@.len(),
            ),
            forall|i: int|
                0 <= i < before.keys().len() && i != cursor.position() ==> #[trigger]
                    after.entry_at(i) == before.entry_at(i),
            after.next_in_memory(next.position() as int) == before.next_in_memory(
                next.position() as int,
            ),
    {
        before.lemma_keys();
        let at = cursor.position() as int;
        after.lemma_next_in_memory_of_same_entries(before, at + 1);
    }

    /// The number of entries in memory at or after the position `from`.
    pub open spec fn in_memory_from(&self, from: int) -> nat
        decreases self.keys().len() - from,
    {
        if 0 <= from < self.keys().len() {
            if S::residence(&self.entry_at(from)) is Memory {
                1 + self.in_memory_from(from + 1)
            } else {
                self.in_memory_from(from + 1)
            }
        } else {
            0
        }
    }

    /// Whether a flush that began with `total` entries in memory is on its
    /// course at `cursor`: every entry before the cursor is in a file, and
    /// the entries that the cursor has counted and those in memory from the
    /// cursor on are `total` together.
    pub open spec fn flush_on_course(&self, cursor: FlushCursor, total: nat) -> bool {
        &&& forall|i: int|
            0 <= i < cursor.position() && i < self.keys().len() ==> S::residence(
                &#[trigger] self.entry_at(i),
            ) is File
        &&& cursor.flushed() + self.in_memory_from(cursor.position() as int) == total
    }

    /// Up to the first entry in memory from the position `from` on, every
    /// entry is in a file and none is counted as in memory; the entry at that
    /// position, if there is one, is in memory.
    pub proof fn lemma_up_to_next_in_memory(&self, from: int)
        requires
            0 <= from,
        ensures
            from <= self.next_in_memory(from) || self.next_in_memory(from) == self.keys().len(),
            self.next_in_memory(from) <= self.keys().len(),
            forall|i: int|
                from <= i < self.next_in_memory(from) ==> S::residence(
                    &#[trigger] self.entry_at(i),
                ) is File,
            self.next_in_memory(from) < self.keys().len() ==> S::residence(
                &self.entry_at(self.next_in_memory(from)),
            ) is Memory,
            self.in_memory_from(from) == self.in_memory_from(self.next_in_memory(from)),
        decreases self.keys().len() - from,
    {
        if from < self.keys().len() && !(S::residence(&self.entry_at(from)) is Memory) {
            self.lemma_up_to_next_in_memory(from + 1);
        }
    }

    /// Where two caches have the same entries from the position `from` on,
    /// as many of them are in memory from there in both.
    pub proof fn lemma_in_memory_of_same_entries(&self, other: &Self, from: int)
        requires
            0 <= from,
            self.keys().len() == other.keys().len(),
            forall|i: int|
                from <= i < self.keys().len() ==> #[trigger] self.entry_at(i) == other.entry_at(i),
        ensures
            self.in_memory_from(from) == other.in_memory_from(from),
        decreases self.keys().len() - from,
    {
        if from < self.keys().len() {
            self.lemma_in_memory_of_same_entries(other, from + 1);
        }
    }

    /// A flush that starts is on its course: nothing is counted yet, and
    /// the total is the number of entries in memory.
    pub proof fn lemma_flush_starts(&self, cursor: FlushCursor)
        requires
            cursor.position() == 0,
            cursor.flushed() == 0,
        ensures
            self.flush_on_course(cursor, self.in_memory_from(0)),
    {
    }

    /// A step of a flush whose write is settled with success keeps the flush
    /// on its course: one entry more is counted, and one entry fewer is in
    /// memory.
    pub proof fn lemma_flush_goes_on(
        before: &Self,
        after: &Self,
        total: nat,
        cursor: FlushCursor,
        write: FileWrite,
        at: FlushCursor,
        outcome: Result<(), std::io::Error>,
        next: FlushCursor,
    )
        requires
            before.wf(),
            before.flush_on_course(cursor, total),
            before.flush_ensures(cursor, Ok(Flush::Write(write, at))),
            Self::flushed_ensures(before, at, write, outcome, Ok(next), after),
        ensures
            after.flush_on_course(next, total),
            next.flushed() == cursor.flushed() + 1,
            after.in_memory_from(0) + 1 == before.in_memory_from(0),
    {
        let from = cursor.position() as int;
        let found = at.position() as int;
        before.lemma_up_to_next_in_memory(from);
        Self::lemma_flushed_moves_one_entry(before, after, at, write, outcome, next);
        after.lemma_in_memory_of_same_entries(before, found + 1);
        assert forall|i: int| 0 <= i < next.position() && i < after.keys().len() implies S::residence(
            &#[trigger] after.entry_at(i),
        ) is File by {
            if i != found {
                assert(after.entry_at(i) == before.entry_at(i));
            }
        }
        Self::lemma_one_fewer_in_memory(before, after, found, 0);
    }

    /// Where two caches have the same entries but for the one at the
    /// position `moved`, which is in memory in the first and in a file in the
    /// second, the second has one entry fewer in memory, counted from any
    /// position up to `moved`.
    pub proof fn lemma_one_fewer_in_memory(before: &Self, after: &Self, moved: int, from: int)
        requires
            0 <= from <= moved < before.keys().len(),
            after.keys().len() == before.keys().len(),
            S::residence(&before.entry_at(moved)) is Memory,
            S::residence(&after.entry_at(moved)) is File,
            forall|i: int|
                0 <= i < before.keys().len() && i != moved ==> #[trigger] after.entry_at(i)
                    == before.entry_at(i),
        ensures
            after.in_memory_from(from) + 1 == before.in_memory_from(from),
        decreases moved - from,
    {
        if from < moved {
            assert(after.entry_at(from) == before.entry_at(from));
            Self::lemma_one_fewer_in_memory(before, after, moved, from + 1);
        } else {
            after.lemma_in_memory_of_same_entries(before, moved + 1);
        }
    }

    /// A flush that is on its course and finishes has moved every entry
    /// that was in memory when it began: its answer is their number, and every
    /// entry of the cache is in a file.
    pub proof fn lemma_flush_finishes(&self, total: nat, cursor: FlushCursor, count: usize)
        requires
            self.flush_on_course(cursor, total),
            self.flush_ensures(cursor, Ok(Flush::Finished(count))),
        ensures
            count == total,
            forall|i: int|
                0 <= i < self.keys().len() ==> S::residence(&#[trigger] self.entry_at(i)) is File,
            self.in_memory_from(0) == 0,
    {
        let from = cursor.position() as int;
        self.lemma_up_to_next_in_memory(from);
        self.lemma_none_in_memory(0);
    }

    /// Where every entry from the position `from` on is in a file, none is
    /// counted as in memory from there.
    pub proof fn lemma_none_in_memory(&self, from: int)
        requires
            0 <= from,
            forall|i: int|
                from <= i < self.keys().len() ==> S::residence(&#[trigger] self.entry_at(i))
                    is File,
        ensures
            self.in_memory_from(from) == 0,
        decreases self.keys().len() - from,
    {
        if from < self.keys().len() {
            assert(S::residence(&self.entry_at(from)) is File);
            self.lemma_none_in_memory(from + 1);
        }
    }

    /// Takes the next step of flushing entries to an underlying non-volatile
    /// storage. A flush starts with a new cursor and goes on, after each
    /// write that [`Self::flushed`] has settled, with the cursor that it
    /// returned.
    pub fn flush(&self, cursor: FlushCursor) -> (r: Result<Flush, Error>)
        requires
            self.wf(),
        ensures
            self.flush_ensures(cursor, r),
    {
        proof {
            use_type_invariant(&cursor);
        }
        let mut position = cursor.position;
        while position < self.data.len()
            invariant
                self.wf(),
                cursor.position <= position,
                cursor.flushed <= cursor.position,
                self.next_in_memory(position as int) == self.next_in_memory(
                    cursor.position() as int,
                ),
            decreases self.keys().len() - position,
        {
            proof {
                self.data.lemma_map_at(position as int);
            }
            match self.strategy.flush(self.data.key(position), self.data.entry(position)) {
                Err(error) => {
                    return Err(error);
                },
                Ok(Some(write)) => {
                    return Ok(Flush::Write(write, FlushCursor { position, flushed: cursor.flushed }));
                },
                Ok(None) => {
                    position = position + 1;
                },
            }
        }
        Ok(Flush::Finished(cursor.flushed))
    }

    /// Settles a write that [`Self::flush`] handed out with `cursor` and
    /// that ended as `outcome`. Returns the cursor with which the flush goes
    /// on.
    pub fn flushed(
        &mut self,
        cursor: FlushCursor,
        write: FileWrite,
        outcome: Result<(), std::io::Error>,
    ) -> (r: Result<FlushCursor, Error>)
        requires
            old(self).wf(),
        ensures
            final(self).wf(),
            Self::flushed_ensures(old(self), cursor, write, outcome, r, final(self)),
    {
        proof {
            use_type_invariant(&cursor);
        }
        let position = cursor.position;
        if position >= self.data.len() {
            return Err(Error::KeyNotFound);
        }
        if !(*self.data.key(position) == write.name) {
            return Err(Error::KeyNotFound);
        }
        proof {
            self.data.lemma_map_at(position as int);
        }
        let ghost name = write.name@;
        match self.strategy.written(write, outcome) {
            Err(error) => Err(error),
            Ok(entry) => {
                let former = self.data.replace(position, entry);
                match self.strategy.delete(former) {
                    Delete::Done => {},
                    Delete::Remove(_, kept) => {
                        let _ = self.strategy.removed(kept, Ok(()));
                    },
                }
                Ok(FlushCursor { position: position + 1, flushed: cursor.flushed + 1 })
            },
        }
    }
}

} // verus!
