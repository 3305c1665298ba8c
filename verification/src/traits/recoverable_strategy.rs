use crate::error::Error;
use crate::traits::cache_key::CacheKey;
use crate::traits::cache_strategy::{FileStrategy, Residence};
use vstd::prelude::*;

verus! {

/// One item of the listing of the cache directory.
#[derive(Debug)]
pub struct DirItem {
    /// The item's name, where the name is text.
    pub name: Option<String>,
    /// Whether the item is a directory.
    pub is_dir: bool,
}

/// What recovery does with one item of the listing.
#[derive(Debug)]
pub enum RecoverStep<K> {
    /// The item is left alone.
    Skip,
    /// The item is moved to the `lost+found` directory, as far as that
    /// succeeds.
    Quarantine,
    /// The item is the file of this key: it is read, for its length.
    Load(K),
}

/// A file that recovery has read.
#[derive(Debug)]
pub struct RecoveredFile<K> {
    /// The key that the file's name stands for.
    pub key: K,
    /// The file's name.
    pub name: String,
    /// The length of the file's content.
    pub byte_len: usize,
}

/// The name of the directory, inside the cache directory, that receives the
/// files whose names stand for no key.
pub const LOST_AND_FOUND: &'static str = "lost+found";

/// Whether `key` is an answer of the key parser `recover_key` to the name
/// `name`.
pub open spec fn parses_to<K, F: Fn(&str) -> Option<K>>(
    recover_key: F,
    name: Seq<char>,
    key: Option<K>,
) -> bool {
    exists|text: &str| text@ == name && #[trigger] call_ensures(recover_key, (text,), key)
}

/// Whether `step` is what recovery does with `item` under the key parser
/// `recover_key`: a directory is skipped; a file whose name is no text, or
/// stands for no key, is quarantined; any other file is loaded under the
/// key that its name stands for.
pub open spec fn step_fits<K, F: Fn(&str) -> Option<K>>(
    item: DirItem,
    recover_key: F,
    step: RecoverStep<K>,
) -> bool {
    if item.is_dir {
        step is Skip
    } else {
        match item.name {
            None => step is Quarantine,
            Some(name) => match step {
                RecoverStep::Skip => false,
                RecoverStep::Quarantine => parses_to(recover_key, name@, None),
                RecoverStep::Load(key) => parses_to(recover_key, name@, Some(key)),
            },
        }
    }
}

/// Decides, item by item, what recovery does with the listing of the cache
/// directory. The listing is not recursive, and no item stops the scan.
pub fn plan_recovery<K, F: Fn(&str) -> Option<K>>(listing: &Vec<DirItem>, recover_key: F) -> (plan:
    Vec<RecoverStep<K>>)
    requires
        forall|name: &str| call_requires(recover_key, (name,)),
    ensures
        plan.len() == listing.len(),
        forall|i: int|
            0 <= i < listing.len() ==> step_fits(listing[i], recover_key, #[trigger] plan[i]),
{
    let mut plan: Vec<RecoverStep<K>> = Vec::new();
    let mut index: usize = 0;
    while index < listing.len()
        invariant
            index <= listing.len(),
            plan.len() == index,
            forall|name: &str| call_requires(recover_key, (name,)),
            forall|i: int| 0 <= i < index ==> step_fits(listing[i], recover_key, #[trigger] plan[i]),
        decreases listing.len() - index,
    {
        let item = &listing[index];
        let step = if item.is_dir {
            RecoverStep::Skip
        } else {
            match &item.name {
                None => RecoverStep::Quarantine,
                Some(name) => match recover_key(name.as_str()) {
                    None => RecoverStep::Quarantine,
                    Some(key) => RecoverStep::Load(key),
                },
            }
        };
        plan.push(step);
        index = index + 1;
    }
    plan
}

/// The bytes of `found`, all files together.
pub open spec fn total_byte_len<K>(found: Seq<RecoveredFile<K>>) -> nat
    decreases found.len(),
{
    if found.len() == 0 {
        0
    } else {
        total_byte_len(found.drop_last()) + found.last().byte_len as nat
    }
}

/// The position in `found` of the last file whose key has the string form
/// `name`, if there is such a file: where several files stand for one key,
/// the last of them is the one that stays.
pub open spec fn last_file_of<K: CacheKey>(found: Seq<RecoveredFile<K>>, name: Seq<char>) -> Option<
    int,
>
    decreases found.len(),
{
    if found.len() == 0 {
        None
    } else if found.last().key.key_spec() == name {
        Some(found.len() - 1)
    } else {
        last_file_of(found.drop_last(), name)
    }
}

/// A cache strategy that can recover its data from a non-volatile storage.
pub trait RecoverableStrategy: FileStrategy {
    /// The counter, by the name of its budget, that cannot hold `entries`
    /// more entries of `bytes` bytes in all, or `None` where they fit.
    spec fn recovery_refusal(state: Self::V, bytes: nat, entries: nat) -> Option<Seq<char>>;

    /// The state after `entries` files of `bytes` bytes in all were
    /// recovered.
    spec fn after_recovery(state: Self::V, bytes: nat, entries: nat) -> Self::V;

    /// Registers the files that recovery has read. Each becomes an entry of
    /// the file tier and is counted there, whatever the budgets are; if the
    /// counters cannot hold them all, none is registered.
    fn recover<K>(&mut self, found: Vec<RecoveredFile<K>>) -> (r: Result<
        Vec<(K, Self::CacheEntry)>,
        Error,
    >)
        ensures
            match Self::recovery_refusal(old(self)@, total_byte_len(found@), found@.len()) {
                Some(limit_kind) => {
                    &&& r matches Err(error)
                    &&& error.is_limit_exceeded(limit_kind)
                    &&& final(self)@ == old(self)@
                },
                None => {
                    &&& r matches Ok(entries)
                    &&& entries@.len() == found@.len()
                    &&& forall|i: int|
                        0 <= i < found@.len() ==> {
                            &&& (#[trigger] entries@[i]).0 == found@[i].key
                            &&& Self::residence(&entries@[i].1) == Residence::File(
                                found@[i].name@,
                                found@[i].byte_len as nat,
                            )
                        }
                    &&& final(self)@ == Self::after_recovery(
                        old(self)@,
                        total_byte_len(found@),
                        found@.len(),
                    )
                },
            },
    ;
}

} // verus!
