use vstd::prelude::*;

verus! {

/// A cache key.
///
/// Keys should be unique and deterministic: the same key always has the same
/// string form. The cache finds entries by that string, and strategies that
/// write files name an entry's file by it.
pub trait CacheKey {
    /// The string form of the key.
    spec fn key_spec(&self) -> Seq<char>;

    /// Computes the string form of the key.
    fn to_key(&self) -> (key: String)
        ensures
            key@ == self.key_spec(),
    ;
}

impl CacheKey for String {
    open spec fn key_spec(&self) -> Seq<char> {
        self@
    }

    fn to_key(&self) -> (key: String) {
        self.clone()
    }
}

impl<'a> CacheKey for &'a str {
    open spec fn key_spec(&self) -> Seq<char> {
        (*self)@
    }

    fn to_key(&self) -> (key: String) {
        (*self).to_owned()
    }
}

} // verus!
