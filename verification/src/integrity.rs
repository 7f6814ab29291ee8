//! The integrity tracker: duplicate detection per symbol and advisory
//! counters, kept for the life of the process.

use crate::timestamp::{plausible_timestamp, timestamp_is_plausible};
use vstd::prelude::*;

verus! {

/// One more, up to the largest value.
pub open spec fn bumped(count: u64) -> u64 {
    if count < u64::MAX {
        (count + 1) as u64
    } else {
        count
    }
}

/// The mathematical model of an [`IntegrityTracker`].
pub struct IntegrityModel {
    /// The identifier of the trade last accepted for each symbol.
    pub last_seen: Map<Seq<char>, i64>,
    pub duplicate_trades: u64,
    pub invalid_timestamps: u64,
    pub total_processed: u64,
}

impl IntegrityModel {
    /// The tracker that has seen nothing.
    pub open spec fn empty() -> IntegrityModel {
        IntegrityModel {
            last_seen: Map::empty(),
            duplicate_trades: 0,
            invalid_timestamps: 0,
            total_processed: 0,
        }
    }

    /// A trade is a duplicate where its identifier is the one last accepted
    /// for its symbol, and only there.
    pub open spec fn is_duplicate(self, symbol: Seq<char>, trade_id: i64) -> bool {
        self.last_seen.dom().contains(symbol) && self.last_seen[symbol] == trade_id
    }

    /// The tracker after `trade_id` was submitted for `symbol`: a duplicate is
    /// counted and changes nothing else, any other trade becomes the one last
    /// seen for its symbol.
    pub open spec fn record_trade(self, symbol: Seq<char>, trade_id: i64) -> IntegrityModel {
        if self.is_duplicate(symbol, trade_id) {
            IntegrityModel { duplicate_trades: bumped(self.duplicate_trades), ..self }
        } else {
            IntegrityModel { last_seen: self.last_seen.insert(symbol, trade_id), ..self }
        }
    }

    /// The tracker after a timestamp was looked at, plausible or not.
    pub open spec fn note_timestamp(self, plausible: bool) -> IntegrityModel {
        if plausible {
            self
        } else {
            IntegrityModel { invalid_timestamps: bumped(self.invalid_timestamps), ..self }
        }
    }

    /// The tracker after one more message was processed.
    pub open spec fn note_message(self) -> IntegrityModel {
        IntegrityModel { total_processed: bumped(self.total_processed), ..self }
    }
}

/// The map that a list of pairs stands for, a later pair overriding an
/// earlier one of the same symbol.
pub open spec fn as_map(entries: Seq<(String, i64)>) -> Map<Seq<char>, i64>
    decreases entries.len(),
{
    if entries.len() == 0 {
        Map::empty()
    } else {
        as_map(entries.drop_last()).insert(entries.last().0@, entries.last().1)
    }
}

/// No symbol stands twice in `entries`.
pub open spec fn distinct_symbols(entries: Seq<(String, i64)>) -> bool {
    forall|i: int, j: int|
        0 <= i < j < entries.len() ==> (#[trigger] entries[i]).0@ != (#[trigger] entries[j]).0@
}

proof fn lemma_as_map_absent(entries: Seq<(String, i64)>, symbol: Seq<char>)
    requires
        forall|i: int| 0 <= i < entries.len() ==> (#[trigger] entries[i]).0@ != symbol,
    ensures
        !as_map(entries).dom().contains(symbol),
    decreases entries.len(),
{
    if entries.len() > 0 {
        lemma_as_map_absent(entries.drop_last(), symbol);
    }
}

proof fn lemma_as_map_at(entries: Seq<(String, i64)>, k: int)
    requires
        distinct_symbols(entries),
        0 <= k < entries.len(),
    ensures
        as_map(entries).dom().contains(entries[k].0@),
        as_map(entries)[entries[k].0@] == entries[k].1,
    decreases entries.len(),
{
    if k < entries.len() - 1 {
        lemma_as_map_at(entries.drop_last(), k);
    }
}

proof fn lemma_as_map_update(entries: Seq<(String, i64)>, k: int, entry: (String, i64))
    requires
        distinct_symbols(entries),
        0 <= k < entries.len(),
        entry.0@ == entries[k].0@,
    ensures
        distinct_symbols(entries.update(k, entry)),
        as_map(entries.update(k, entry)) == as_map(entries).insert(entry.0@, entry.1),
    decreases entries.len(),
{
    let updated = entries.update(k, entry);
    assert(distinct_symbols(updated)) by {
        assert forall|i: int, j: int| 0 <= i < j < updated.len() implies (#[trigger] updated[i]).0@
            != (#[trigger] updated[j]).0@ by {
            assert(entries[i].0@ != entries[j].0@);
        }
    }
    if k == entries.len() - 1 {
        assert(updated.drop_last() =~= entries.drop_last());
        assert(as_map(updated) =~= as_map(entries).insert(entry.0@, entry.1));
    } else {
        lemma_as_map_update(entries.drop_last(), k, entry);
        assert(updated.drop_last() =~= entries.drop_last().update(k, entry));
        assert(entries.last().0@ != entry.0@);
        assert(as_map(updated) =~= as_map(entries).insert(entry.0@, entry.1));
    }
}

/// Per-symbol duplicate detection and the advisory counters.
pub struct IntegrityTracker {
    last_seen: Vec<(String, i64)>,
    duplicate_trades: u64,
    invalid_timestamps: u64,
    total_processed: u64,
}

impl IntegrityTracker {
    #[verifier::type_invariant]
    spec fn well_formed(self) -> bool {
        distinct_symbols(self.last_seen@)
    }

    pub closed spec fn view(&self) -> IntegrityModel {
        IntegrityModel {
            last_seen: as_map(self.last_seen@),
            duplicate_trades: self.duplicate_trades,
            invalid_timestamps: self.invalid_timestamps,
            total_processed: self.total_processed,
        }
    }

    /// A tracker that has seen nothing.
    pub fn new() -> (tracker: Self)
        ensures
            tracker@ == IntegrityModel::empty(),
    {
        IntegrityTracker {
            last_seen: Vec::new(),
            duplicate_trades: 0,
            invalid_timestamps: 0,
            total_processed: 0,
        }
    }

    pub fn duplicate_trades(&self) -> (count: u64)
        ensures
            count == self@.duplicate_trades,
    {
        self.duplicate_trades
    }

    pub fn invalid_timestamps(&self) -> (count: u64)
        ensures
            count == self@.invalid_timestamps,
    {
        self.invalid_timestamps
    }

    pub fn total_processed(&self) -> (count: u64)
        ensures
            count == self@.total_processed,
    {
        self.total_processed
    }

    /// The identifier last accepted for `symbol`.
    pub fn last_seen(&self, symbol: &str) -> (trade_id: Option<i64>)
        ensures
            trade_id == if self@.last_seen.dom().contains(symbol@) {
                Some(self@.last_seen[symbol@])
            } else {
                None
            },
    {
        match self.position(symbol) {
            Some(k) => Some(self.last_seen[k].1),
            None => None,
        }
    }

    fn position(&self, symbol: &str) -> (at: Option<usize>)
        ensures
            match at {
                Some(k) => {
                    &&& k < self.last_seen@.len()
                    &&& self.last_seen@[k as int].0@ == symbol@
                    &&& self@.last_seen.dom().contains(symbol@)
                    &&& self@.last_seen[symbol@] == self.last_seen@[k as int].1
                },
                None => !self@.last_seen.dom().contains(symbol@),
            },
    {
        proof {
            use_type_invariant(self);
        }
        let mut i: usize = 0;
        while i < self.last_seen.len()
            invariant
                i <= self.last_seen@.len(),
                distinct_symbols(self.last_seen@),
                forall|k: int| 0 <= k < i ==> (#[trigger] self.last_seen@[k]).0@ != symbol@,
            decreases self.last_seen@.len() - i,
        {
            if crate::text::str_eq(self.last_seen[i].0.as_str(), symbol) {
                proof {
                    lemma_as_map_at(self.last_seen@, i as int);
                }
                return Some(i);
            }
            i += 1;
        }
        proof {
            lemma_as_map_absent(self.last_seen@, symbol@);
        }
        None
    }

    /// Submits a trade. Returns whether it is accepted: a trade is rejected,
    /// and counted as a duplicate, only where its identifier repeats the one
    /// last accepted for its symbol. The order of identifiers plays no part.
    pub fn record_trade(&mut self, symbol: &str, trade_id: i64) -> (accepted: bool)
        ensures
            accepted == !old(self)@.is_duplicate(symbol@, trade_id),
            final(self)@ == old(self)@.record_trade(symbol@, trade_id),
    {
        proof {
            use_type_invariant(&*self);
        }
        match self.position(symbol) {
            Some(k) => {
                if self.last_seen[k].1 == trade_id {
                    self.duplicate_trades = self.duplicate_trades.saturating_add(1);
                    false
                } else {
                    let mut entries: Vec<(String, i64)> = Vec::new();
                    std::mem::swap(&mut self.last_seen, &mut entries);
                    let entry = (symbol.to_owned(), trade_id);
                    proof {
                        lemma_as_map_update(entries@, k as int, entry);
                    }
                    entries.set(k, entry);
                    std::mem::swap(&mut self.last_seen, &mut entries);
                    true
                }
            },
            None => {
                let mut entries: Vec<(String, i64)> = Vec::new();
                std::mem::swap(&mut self.last_seen, &mut entries);
                let entry = (symbol.to_owned(), trade_id);
                proof {
                    let pushed = entries@.push(entry);
                    assert(pushed.drop_last() =~= entries@);
                    assert forall|i: int, j: int| 0 <= i < j < pushed.len() implies (
                    #[trigger] pushed[i]).0@ != (#[trigger] pushed[j]).0@ by {
                        if j == pushed.len() - 1 {
                            assert(entries@[i].0@ != symbol@) by {
                                if entries@[i].0@ == symbol@ {
                                    lemma_as_map_at(entries@, i);
                                }
                            }
                        } else {
                            assert(entries@[i].0@ != entries@[j].0@);
                        }
                    }
                }
                entries.push(entry);
                std::mem::swap(&mut self.last_seen, &mut entries);
                true
            },
        }
    }

    /// Counts a timestamp that was found implausible. The record it belongs
    /// to is not touched: the counter is advisory.
    pub fn note_timestamp(&mut self, plausible: bool)
        ensures
            final(self)@ == old(self)@.note_timestamp(plausible),
    {
        proof {
            use_type_invariant(&*self);
        }
        if !plausible {
            self.invalid_timestamps = self.invalid_timestamps.saturating_add(1);
        }
    }

    /// Looks at a server timestamp, in milliseconds, and counts it if it is
    /// not plausible. Returns whether it is.
    pub fn observe_timestamp(&mut self, millis: i64) -> (plausible: bool)
        ensures
            plausible == plausible_timestamp(millis),
            final(self)@ == old(self)@.note_timestamp(plausible),
    {
        let plausible = timestamp_is_plausible(millis);
        self.note_timestamp(plausible);
        plausible
    }

    /// Counts one processed message.
    pub fn note_message(&mut self)
        ensures
            final(self)@ == old(self)@.note_message(),
    {
        proof {
            use_type_invariant(&*self);
        }
        self.total_processed = self.total_processed.saturating_add(1);
    }
}

/// Submitting one identifier twice in direct succession for a symbol: the
/// second submission is rejected, whatever came before the first.
pub proof fn law_immediate_repeat_is_rejected(
    tracker: IntegrityModel,
    symbol: Seq<char>,
    trade_id: i64,
)
    ensures
        tracker.record_trade(symbol, trade_id).is_duplicate(symbol, trade_id),
{
}

/// Submitting two different identifiers in succession for a symbol: the second
/// is accepted, whichever of the two is the larger, and whether or not the
/// first was.
pub proof fn law_different_identifiers_are_accepted(
    tracker: IntegrityModel,
    symbol: Seq<char>,
    first: i64,
    second: i64,
)
    requires
        first != second,
    ensures
        !tracker.record_trade(symbol, first).is_duplicate(symbol, second),
{
}

} // verus!
