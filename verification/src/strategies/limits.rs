use crate::traits::recoverable_strategy::{total_byte_len, RecoveredFile};
use vstd::prelude::*;

verus! {

/// The name of the byte budget in a limit error.
pub const LIMIT_KIND_BYTE: &'static str = "Stored bytes";

/// The name of the entry budget in a limit error.
pub const LIMIT_KIND_ENTRY: &'static str = "Stored entries";

/// The name of the byte budget of the disk tier in a limit error.
pub const LIMIT_KIND_BYTE_DISK: &'static str = "Stored bytes on disk";

/// The name of the entry budget of the disk tier in a limit error.
pub const LIMIT_KIND_ENTRY_DISK: &'static str = "Stored entries on disk";

/// The limit kind that was exceeded.
#[derive(Debug, Clone, Copy)]
pub enum LimitExceededKind {
    /// Exceeded byte limit.
    Bytes,
    /// Exceeded entry limit.
    Entries,
}

/// The result of evaluating a byte size against a limit.
#[derive(Debug, Clone, Copy)]
pub enum LimitEvaluation {
    /// Both budgets have room.
    LimitSatisfied,
    /// A budget would be crossed.
    LimitExceeded(LimitExceededKind),
}

impl LimitEvaluation {
    /// Returns true if the limit was satisfied.
    pub fn is_satisfied(&self) -> (satisfied: bool)
        ensures
            satisfied == (self is LimitSatisfied),
    {
        match self {
            LimitEvaluation::LimitSatisfied => true,
            LimitEvaluation::LimitExceeded(_) => false,
        }
    }
}

/// The budgets and counters of one tier, as the contracts speak of them.
pub struct LimitsView {
    /// The maximum number of bytes that can be stored.
    pub byte_limit: Option<usize>,
    /// The maximum number of entries that can be stored.
    pub entry_limit: Option<usize>,
    /// The current number of bytes stored.
    pub byte_count: nat,
    /// The current number of entries stored.
    pub entry_count: nat,
}

impl LimitsView {
    /// The counters of a tier that holds nothing.
    pub open spec fn empty(byte_limit: Option<usize>, entry_limit: Option<usize>) -> LimitsView {
        LimitsView { byte_limit, entry_limit, byte_count: 0, entry_count: 0 }
    }

    /// The most bytes the tier may hold: its byte limit, or without one the
    /// largest count that the counter can hold.
    pub open spec fn byte_budget(self) -> nat {
        match self.byte_limit {
            Some(limit) => limit as nat,
            None => usize::MAX as nat,
        }
    }

    /// The most entries the tier may hold: its entry limit, or without one
    /// the largest count that the counter can hold.
    pub open spec fn entry_budget(self) -> nat {
        match self.entry_limit {
            Some(limit) => limit as nat,
            None => usize::MAX as nat,
        }
    }

    /// Whether one more entry of `size` bytes fits: the two budgets are
    /// checked independently, bytes first.
    pub open spec fn evaluate(self, size: nat) -> LimitEvaluation {
        if self.byte_count + size > self.byte_budget() {
            LimitEvaluation::LimitExceeded(LimitExceededKind::Bytes)
        } else if self.entry_count + 1 > self.entry_budget() {
            LimitEvaluation::LimitExceeded(LimitExceededKind::Entries)
        } else {
            LimitEvaluation::LimitSatisfied
        }
    }

    /// The counters after one entry of `size` bytes was stored.
    pub open spec fn stored(self, size: nat) -> LimitsView {
        LimitsView {
            byte_count: self.byte_count + size,
            entry_count: self.entry_count + 1,
            ..self
        }
    }

    /// The counters after one entry of `size` bytes was released. A counter
    /// never goes below zero.
    pub open spec fn released(self, size: nat) -> LimitsView {
        LimitsView {
            byte_count: if size <= self.byte_count {
                (self.byte_count - size) as nat
            } else {
                0
            },
            entry_count: if 1 <= self.entry_count {
                (self.entry_count - 1) as nat
            } else {
                0
            },
            ..self
        }
    }

    /// Whether the counters can hold `entries` more entries of `bytes`
    /// bytes in all, whatever the budgets are: bytes are checked first.
    pub open spec fn holds(self, bytes: nat, entries: nat) -> LimitEvaluation {
        if self.byte_count + bytes > usize::MAX {
            LimitEvaluation::LimitExceeded(LimitExceededKind::Bytes)
        } else if self.entry_count + entries > usize::MAX {
            LimitEvaluation::LimitExceeded(LimitExceededKind::Entries)
        } else {
            LimitEvaluation::LimitSatisfied
        }
    }

    /// The counters after `entries` more entries of `bytes` bytes in all
    /// were registered.
    pub open spec fn registered(self, bytes: nat, entries: nat) -> LimitsView {
        LimitsView {
            byte_count: self.byte_count + bytes,
            entry_count: self.entry_count + entries,
            ..self
        }
    }
}

/// The byte and entry budgets of one tier, with its running counters.
#[derive(Debug)]
pub struct Limits {
    /// The maximum number of bytes that can be stored.
    byte_limit: Option<usize>,
    /// The maximum number of entries that can be stored.
    entry_limit: Option<usize>,
    /// The current number of bytes stored.
    current_byte_count: usize,
    /// The current number of entries stored.
    current_entry_count: usize,
}

impl View for Limits {
    type V = LimitsView;

    closed spec fn view(&self) -> LimitsView {
        LimitsView {
            byte_limit: self.byte_limit,
            entry_limit: self.entry_limit,
            byte_count: self.current_byte_count as nat,
            entry_count: self.current_entry_count as nat,
        }
    }
}

impl Default for Limits {
    fn default() -> (limits: Self)
        ensures
            limits@ == LimitsView::empty(None, None),
    {
        Limits { byte_limit: None, entry_limit: None, current_byte_count: 0, current_entry_count: 0 }
    }
}

impl Limits {
    /// Creates the limits of an empty tier.
    pub fn new(byte_limit: Option<usize>, entry_limit: Option<usize>) -> (limits: Self)
        ensures
            limits@ == LimitsView::empty(byte_limit, entry_limit),
    {
        Limits { byte_limit, entry_limit, current_byte_count: 0, current_entry_count: 0 }
    }

    /// The maximum number of bytes that can be stored.
    pub fn byte_limit(&self) -> (limit: Option<usize>)
        ensures
            limit == self@.byte_limit,
    {
        self.byte_limit
    }

    /// The maximum number of entries that can be stored.
    pub fn entry_limit(&self) -> (limit: Option<usize>)
        ensures
            limit == self@.entry_limit,
    {
        self.entry_limit
    }

    /// The current number of bytes stored.
    pub fn current_byte_count(&self) -> (count: usize)
        ensures
            count == self@.byte_count,
    {
        self.current_byte_count
    }

    /// The current number of entries stored.
    pub fn current_entry_count(&self) -> (count: usize)
        ensures
            count == self@.entry_count,
    {
        self.current_entry_count
    }

    /// Evaluates whether one more entry of `size` bytes fits the budgets.
    pub fn evaluate(&self, size: usize) -> (evaluation: LimitEvaluation)
        ensures
            evaluation == self@.evaluate(size as nat),
    {
        let byte_budget: usize = match self.byte_limit {
            Some(limit) => limit,
            None => usize::MAX,
        };
        let entry_budget: usize = match self.entry_limit {
            Some(limit) => limit,
            None => usize::MAX,
        };
        if size > byte_budget || self.current_byte_count > byte_budget - size {
            LimitEvaluation::LimitExceeded(LimitExceededKind::Bytes)
        } else if self.current_entry_count >= entry_budget {
            LimitEvaluation::LimitExceeded(LimitExceededKind::Entries)
        } else {
            LimitEvaluation::LimitSatisfied
        }
    }

    /// Counts one more entry of `size` bytes, if it fits the budgets: the
    /// answer is that of [`Self::evaluate`], and a refusal counts nothing.
    pub fn store(&mut self, size: usize) -> (evaluation: LimitEvaluation)
        ensures
            evaluation == old(self)@.evaluate(size as nat),
            final(self)@ == if evaluation is LimitSatisfied {
                old(self)@.stored(size as nat)
            } else {
                old(self)@
            },
    {
        let evaluation = self.evaluate(size);
        if evaluation.is_satisfied() {
            self.current_byte_count = self.current_byte_count + size;
            self.current_entry_count = self.current_entry_count + 1;
        }
        evaluation
    }

    /// Counts one released entry of `size` bytes.
    pub fn release(&mut self, size: usize)
        ensures
            final(self)@ == old(self)@.released(size as nat),
    {
        self.current_byte_count = if size <= self.current_byte_count {
            self.current_byte_count - size
        } else {
            0
        };
        self.current_entry_count = if 1 <= self.current_entry_count {
            self.current_entry_count - 1
        } else {
            0
        };
    }

    /// Counts the files `found`, which were found already stored. The
    /// budgets are not consulted; where the counters cannot hold the files,
    /// none is counted.
    pub fn register_all<K>(&mut self, found: &Vec<RecoveredFile<K>>) -> (evaluation:
        LimitEvaluation)
        ensures
            evaluation == old(self)@.holds(total_byte_len(found@), found@.len()),
            final(self)@ == if evaluation is LimitSatisfied {
                old(self)@.registered(total_byte_len(found@), found@.len())
            } else {
                old(self)@
            },
    {
        let mut byte_count: usize = self.current_byte_count;
        let mut index: usize = 0;
        while index < found.len()
            invariant
                index <= found.len(),
                byte_count == self.current_byte_count + total_byte_len(found@.take(index as int)),
            decreases found.len() - index,
        {
            let byte_len = found[index].byte_len;
            proof {
                lemma_total_byte_len_step(found@, index as int);
                lemma_total_byte_len_grows(found@, index as int + 1);
            }
            if byte_len > usize::MAX - byte_count {
                return LimitEvaluation::LimitExceeded(LimitExceededKind::Bytes);
            }
            byte_count = byte_count + byte_len;
            index = index + 1;
        }
        assert(found@.take(index as int) == found@);
        if found.len() > usize::MAX - self.current_entry_count {
            return LimitEvaluation::LimitExceeded(LimitExceededKind::Entries);
        }
        self.current_byte_count = byte_count;
        self.current_entry_count = self.current_entry_count + found.len();
        LimitEvaluation::LimitSatisfied
    }
}

/// The four names of budgets are four different texts.
pub proof fn lemma_limit_kinds_differ()
    ensures
        LIMIT_KIND_BYTE@ != LIMIT_KIND_ENTRY@,
        LIMIT_KIND_BYTE_DISK@ != LIMIT_KIND_ENTRY_DISK@,
        LIMIT_KIND_BYTE@ != LIMIT_KIND_BYTE_DISK@,
        LIMIT_KIND_ENTRY@ != LIMIT_KIND_ENTRY_DISK@,
        LIMIT_KIND_BYTE@ != LIMIT_KIND_ENTRY_DISK@,
        LIMIT_KIND_ENTRY@ != LIMIT_KIND_BYTE_DISK@,
{
    reveal_strlit("Stored bytes");
    reveal_strlit("Stored entries");
    reveal_strlit("Stored bytes on disk");
    reveal_strlit("Stored entries on disk");
    assert(LIMIT_KIND_BYTE@.len() == 12);
    assert(LIMIT_KIND_ENTRY@.len() == 14);
    assert(LIMIT_KIND_BYTE_DISK@.len() == 20);
    assert(LIMIT_KIND_ENTRY_DISK@.len() == 22);
}

/// With a byte limit, a value is refused for its bytes exactly when the
/// bytes that are stored and its own would exceed the limit: the first
/// write that crosses the limit is the first that is refused.
pub proof fn lemma_byte_limit_enforced(limits: LimitsView, limit: usize, size: nat)
    requires
        limits.byte_limit == Some(limit),
    ensures
        limits.evaluate(size) == LimitEvaluation::LimitExceeded(LimitExceededKind::Bytes)
            <==> limits.byte_count + size > limit,
{
}

/// With an entry limit, a value that the byte budget has room for is
/// refused for the entries exactly when as many entries are stored as the
/// limit allows: with a limit of N, the put after N puts is refused.
pub proof fn lemma_entry_limit_enforced(limits: LimitsView, limit: usize, size: nat)
    requires
        limits.entry_limit == Some(limit),
        limits.byte_count + size <= limits.byte_budget(),
    ensures
        limits.evaluate(size) == LimitEvaluation::LimitExceeded(LimitExceededKind::Entries)
            <==> limits.entry_count >= limit,
{
}

/// A write that is accepted never pushes a counter past its limit, and a
/// write that is refused is one that would.
pub proof fn lemma_accepted_write_within_limits(limits: LimitsView, size: nat)
    ensures
        limits.evaluate(size) is LimitSatisfied <==> {
            &&& limits.stored(size).byte_count <= limits.byte_budget()
            &&& limits.stored(size).entry_count <= limits.entry_budget()
        },
{
}

/// Releasing an entry undoes the count of storing it.
pub proof fn lemma_release_undoes_store(limits: LimitsView, size: nat)
    ensures
        limits.stored(size).released(size) == limits,
{
}

/// The first `index + 1` files hold the bytes of the first `index` and of
/// the file at `index`.
pub proof fn lemma_total_byte_len_step<K>(found: Seq<RecoveredFile<K>>, index: int)
    requires
        0 <= index < found.len(),
    ensures
        total_byte_len(found.take(index + 1)) == total_byte_len(found.take(index))
            + found[index].byte_len,
{
    assert(found.take(index + 1).drop_last() == found.take(index));
}

/// A part of the files holds no more bytes than all of them.
pub proof fn lemma_total_byte_len_grows<K>(found: Seq<RecoveredFile<K>>, count: int)
    requires
        0 <= count <= found.len(),
    ensures
        total_byte_len(found.take(count)) <= total_byte_len(found),
    decreases found.len() - count,
{
    if count == found.len() {
        assert(found.take(count) == found);
    } else {
        lemma_total_byte_len_step(found, count);
        lemma_total_byte_len_grows(found, count + 1);
    }
}

} // verus!
