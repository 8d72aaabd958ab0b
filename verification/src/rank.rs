//! The rank configuration: how many events in a week earn a mark, and how
//! many marks each rank requires for promotion. The table is injected, not
//! compiled in, so thresholds can vary between deployments and tests.

use vstd::prelude::*;

verus! {

/// One rank of the configuration table: an external rank identifier and
/// the number of marks required for promotion out of it, or `None` for a
/// terminal rank that never promotes.
#[derive(Clone, Copy, Debug, PartialEq, Eq, Structural)]
pub struct RankEntry {
    pub rank_id: u64,
    pub required_marks: Option<i32>,
}

/// The injected rank configuration.
#[derive(Clone, Debug)]
pub struct RankTable {
    /// Events attended within one tracking week that earn one mark.
    pub events_per_mark: i32,
    /// The promotion thresholds, looked up by rank identifier;
    /// the first entry with a given identifier decides.
    pub entries: Vec<RankEntry>,
}

/// The required marks of the first entry for `rank_id` at or after
/// position `i`, or `None` where no entry matches or the rank is terminal.
pub open spec fn spec_threshold_from(entries: Seq<RankEntry>, rank_id: u64, i: int) -> Option<i32>
    decreases entries.len() - i,
{
    if i < 0 || i >= entries.len() {
        None
    } else if entries[i].rank_id == rank_id {
        entries[i].required_marks
    } else {
        spec_threshold_from(entries, rank_id, i + 1)
    }
}

/// The promotion threshold the table gives a rank: the required marks of
/// the first matching entry, or `None` where the rank is unknown to the
/// table or terminal. A rank without a threshold never promotes.
pub open spec fn spec_threshold(table: RankTable, rank_id: u64) -> Option<i32> {
    spec_threshold_from(table.entries@, rank_id, 0)
}

impl RankTable {
    /// Looks up the promotion threshold for a rank.
    pub fn required_marks(&self, rank_id: u64) -> (r: Option<i32>)
        ensures
            r == spec_threshold(*self, rank_id),
    {
        let mut i: usize = 0;
        while i < self.entries.len()
            invariant
                0 <= i <= self.entries.len(),
                spec_threshold(*self, rank_id) == spec_threshold_from(
                    self.entries@,
                    rank_id,
                    i as int,
                ),
            decreases self.entries.len() - i,
        {
            if self.entries[i].rank_id == rank_id {
                return self.entries[i].required_marks;
            }
            i = i + 1;
        }
        None
    }
}

} // verus!
