use crate::error::Error;
use crate::traits::cache_key::CacheKey;
use crate::traits::cache_strategy::{FileStrategy, FileWrite, Residence};
use vstd::prelude::*;

verus! {

/// A cache strategy that can flush its data to a non-volatile storage.
pub trait FlushableStrategy: FileStrategy {
    /// Decides how the entry `entry` of the key `key` is flushed. An entry
    /// that is in a file already needs nothing. An entry in memory is written
    /// to the file named by the key, if the file tier has room for it. The
    /// strategy is unchanged: the write is settled by
    /// [`FileStrategy::written`], which makes the entry that replaces `entry`.
    fn flush<K: CacheKey>(&self, key: &K, entry: &Self::CacheEntry) -> (r: Result<
        Option<FileWrite>,
        Error,
    >)
        ensures
            match Self::residence(entry) {
                Residence::File(_, _) => r matches Ok(None),
                Residence::Memory(data) => match Self::file_refusal(self@, data.len()) {
                    Some(limit_kind) => r matches Err(error) && error.is_limit_exceeded(limit_kind),
                    None => {
                        &&& r matches Ok(Some(write))
                        &&& write.name@ == key.key_spec()
                        &&& write.data@ == data
                    },
                },
            },
    ;
}

} // verus!
