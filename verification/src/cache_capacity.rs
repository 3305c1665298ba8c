use vstd::prelude::*;

verus! {

/// A snapshot of how much of a byte budget is in use.
pub struct CacheCapacity {
    total_bytes: usize,
    used_bytes: usize,
}

impl CacheCapacity {
    /// The byte budget of the snapshot.
    pub closed spec fn spec_total(&self) -> usize {
        self.total_bytes
    }

    /// The bytes in use at the time of the snapshot.
    pub closed spec fn spec_used(&self) -> usize {
        self.used_bytes
    }

    /// Create a new [CacheCapacity] instance.
    pub fn new(total_bytes: usize, used_bytes: usize) -> (capacity: Self)
        ensures
            capacity.spec_total() == total_bytes,
            capacity.spec_used() == used_bytes,
    {
        Self { total_bytes, used_bytes }
    }

    /// Get the total cache capacity in bytes.
    #[verifier::when_used_as_spec(spec_total)]
    pub fn total(&self) -> (total: usize)
        ensures
            total == self.spec_total(),
    {
        self.total_bytes
    }

    /// Get the used cache capacity in bytes.
    #[verifier::when_used_as_spec(spec_used)]
    pub fn used(&self) -> (used: usize)
        ensures
            used == self.spec_used(),
    {
        self.used_bytes
    }
}

} // verus!
