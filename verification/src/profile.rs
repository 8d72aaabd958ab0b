//! Per-member state and the Profile state-transition rules: the weekly
//! counter reset, the mark award, the externally driven rank change, the
//! promotion-eligibility check, and the Profile row encoding.

use crate::codec::DecodeError;
use crate::rank::{spec_threshold, RankTable};
use crate::time::{
    format_rfc3339, has_date_rolled_over, parse_rfc3339, parse_ts, rfc3339_of, spec_rolled_over,
    Timestamp, TS_BOUND,
};
use vstd::prelude::*;

verus! {

/// Mutable per-member state: identity, current rank, lifetime marks,
/// marks since the last promotion, and the rolling count of events
/// attended in the current tracking week.
#[derive(Clone, Debug)]
pub struct Profile {
    pub user_id: u64,
    /// Display name; absent for legacy records.
    pub username: Option<String>,
    /// Current external rank identifier.
    pub rank_id: u64,
    /// Most recent attendance; absent means the member never attended.
    pub last_event_attended_date: Option<Timestamp>,
    /// Lifetime count of marks ever awarded; never decreases.
    pub total_marks: i32,
    /// Marks accumulated since the last promotion.
    pub marks_at_current_rank: i32,
    /// Events attended in the current tracking week.
    pub events_attended_this_week: i32,
}

/// The mathematical value of a `Profile`.
#[verifier::ext_equal]
pub ghost struct ProfileV {
    pub user_id: u64,
    pub username: Option<Seq<char>>,
    pub rank_id: u64,
    pub last_event_attended_date: Option<Timestamp>,
    pub total_marks: i32,
    pub marks_at_current_rank: i32,
    pub events_attended_this_week: i32,
}

impl View for Profile {
    type V = ProfileV;

    open spec fn view(&self) -> ProfileV {
        ProfileV {
            user_id: self.user_id,
            username: match self.username {
                Some(s) => Some(s@),
                None => None,
            },
            rank_id: self.rank_id,
            last_event_attended_date: self.last_event_attended_date,
            total_marks: self.total_marks,
            marks_at_current_rank: self.marks_at_current_rank,
            events_attended_this_week: self.events_attended_this_week,
        }
    }
}

impl ProfileV {
    /// A stored attendance date, where present, lies in the encodable range.
    pub open spec fn wf(self) -> bool {
        match self.last_event_attended_date {
            Some(t) => t.wf(),
            None => true,
        }
    }
}

/// The state after the weekly reset rule: the counter is zeroed when the
/// stored date has rolled over, or when there is no stored date (a fresh
/// start, not a rollover); otherwise nothing changes.
pub open spec fn spec_after_reset(p: ProfileV, now: Timestamp) -> ProfileV {
    match p.last_event_attended_date {
        None => (ProfileV { events_attended_this_week: 0, ..p }),
        Some(d) => if spec_rolled_over(d, now) {
            ProfileV { events_attended_this_week: 0, ..p }
        } else {
            p
        },
    }
}

/// Whether the weekly reset rule reports a change: only a true rollover
/// of a stored date counts, never the no-history initialization.
pub open spec fn spec_reset_changed(p: ProfileV, now: Timestamp) -> bool {
    match p.last_event_attended_date {
        Some(d) => spec_rolled_over(d, now),
        None => false,
    }
}

/// Whether the mark-award rule fires: the weekly counter equals the
/// configured events-per-mark exactly (not at-least), so it fires once,
/// at the moment the counter reaches the threshold.
pub open spec fn spec_award_fires(p: ProfileV, events_per_mark: i32) -> bool {
    p.events_attended_this_week == events_per_mark
}

/// The state after the mark-award rule: both mark counters grow by one
/// when the rule fires; otherwise nothing changes.
pub open spec fn spec_after_award(p: ProfileV, events_per_mark: i32) -> ProfileV {
    if spec_award_fires(p, events_per_mark) {
        ProfileV {
            total_marks: (p.total_marks + 1) as i32,
            marks_at_current_rank: (p.marks_at_current_rank + 1) as i32,
            ..p
        }
    } else {
        p
    }
}

/// The state after the rank-update rule: a differing external rank
/// replaces the stored one and clears the per-rank mark progress;
/// an equal rank changes nothing.
pub open spec fn spec_after_update_rank(p: ProfileV, new_rank_id: u64) -> ProfileV {
    if p.rank_id != new_rank_id {
        ProfileV { rank_id: new_rank_id, marks_at_current_rank: 0, ..p }
    } else {
        p
    }
}

/// Whether a member is due for promotion: the per-rank marks equal the
/// table's threshold for the current rank exactly. A rank the table has
/// no threshold for never promotes.
pub open spec fn spec_should_promote(p: ProfileV, table: RankTable) -> bool {
    match spec_threshold(table, p.rank_id) {
        Some(m) => p.marks_at_current_rank == m,
        None => false,
    }
}

impl Profile {
    /// A stored attendance date, where present, lies in the encodable range.
    pub open spec fn wf(self) -> bool {
        self@.wf()
    }

    /// A fresh Profile with zeroed counters and no attendance history.
    pub fn new(user_id: u64, username: Option<String>, rank_id: u64) -> (r: Profile)
        ensures
            r@ == (ProfileV {
                user_id,
                username: match username {
                    Some(s) => Some(s@),
                    None => None,
                },
                rank_id,
                last_event_attended_date: None,
                total_marks: 0,
                marks_at_current_rank: 0,
                events_attended_this_week: 0,
            }),
            r.wf(),
    {
        Profile {
            user_id,
            username,
            rank_id,
            last_event_attended_date: None,
            total_marks: 0,
            marks_at_current_rank: 0,
            events_attended_this_week: 0,
        }
    }

    /// Applies the weekly reset rule against the instant `now`. Zeroes the
    /// counter and reports true when the stored date has rolled over;
    /// zeroes the counter and reports false when there is no stored date;
    /// otherwise changes nothing and reports false.
    pub fn try_reset_events(&mut self, now: Timestamp) -> (changed: bool)
        requires
            old(self).wf(),
            now.wf(),
        ensures
            changed == spec_reset_changed(old(self)@, now),
            final(self)@ == spec_after_reset(old(self)@, now),
    {
        match self.last_event_attended_date {
            Some(date) => {
                if has_date_rolled_over(date, now) {
                    self.events_attended_this_week = 0;
                    true
                } else {
                    false
                }
            },
            None => {
                self.events_attended_this_week = 0;
                false
            },
        }
    }

    /// Applies the mark-award rule: when the weekly counter equals the
    /// table's events-per-mark, both mark counters grow by one and the
    /// call reports true; otherwise nothing changes.
    pub fn try_award_mark(&mut self, table: &RankTable) -> (awarded: bool)
        requires
            old(self).total_marks < i32::MAX,
            old(self).marks_at_current_rank < i32::MAX,
        ensures
            awarded == spec_award_fires(old(self)@, table.events_per_mark),
            final(self)@ == spec_after_award(old(self)@, table.events_per_mark),
    {
        if self.events_attended_this_week == table.events_per_mark {
            self.total_marks = self.total_marks + 1;
            self.marks_at_current_rank = self.marks_at_current_rank + 1;
            true
        } else {
            false
        }
    }

    /// Applies the rank-update rule: a rank identifier differing from the
    /// stored one replaces it, clears the per-rank marks and reports true;
    /// an equal one changes nothing and reports false.
    pub fn try_update_rank(&mut self, current_rank_id: u64) -> (changed: bool)
        ensures
            changed == (old(self).rank_id != current_rank_id),
            final(self)@ == spec_after_update_rank(old(self)@, current_rank_id),
    {
        if self.rank_id != current_rank_id {
            self.rank_id = current_rank_id;
            self.marks_at_current_rank = 0;
            true
        } else {
            false
        }
    }

    /// Whether this member is due for promotion under the given table.
    pub fn should_promote(&self, table: &RankTable) -> (r: bool)
        ensures
            r == spec_should_promote(self@, *table),
    {
        match table.required_marks(self.rank_id) {
            Some(marks) => self.marks_at_current_rank == marks,
            None => false,
        }
    }
}

/// A persisted Profile row. The columns, in order: member identifier,
/// optional display name, rank identifier, last attendance as text (the
/// literal `"null"` or an RFC 3339 timestamp, never a true null), lifetime
/// marks, marks at the current rank, events attended this week.
#[derive(Clone, Debug)]
pub struct ProfileRow {
    pub user_id: u64,
    pub username: Option<String>,
    pub rank_id: u64,
    pub last_event_attended_date: String,
    pub total_marks: i32,
    pub marks_at_current_rank: i32,
    pub events_attended_this_week: i32,
}

/// The mathematical value of a `ProfileRow`.
#[verifier::ext_equal]
pub ghost struct ProfileRowV {
    pub user_id: u64,
    pub username: Option<Seq<char>>,
    pub rank_id: u64,
    pub last_event_attended_date: Seq<char>,
    pub total_marks: i32,
    pub marks_at_current_rank: i32,
    pub events_attended_this_week: i32,
}

impl View for ProfileRow {
    type V = ProfileRowV;

    open spec fn view(&self) -> ProfileRowV {
        ProfileRowV {
            user_id: self.user_id,
            username: match self.username {
                Some(s) => Some(s@),
                None => None,
            },
            rank_id: self.rank_id,
            last_event_attended_date: self.last_event_attended_date@,
            total_marks: self.total_marks,
            marks_at_current_rank: self.marks_at_current_rank,
            events_attended_this_week: self.events_attended_this_week,
        }
    }
}

/// The text a stored attendance date is encoded as: the sentinel `"null"`
/// for a member who never attended, an RFC 3339 timestamp otherwise.
pub open spec fn spec_date_encode(d: Option<Timestamp>) -> Seq<char> {
    match d {
        None => "null"@,
        Some(t) => rfc3339_of(t.secs),
    }
}

/// The attendance date a stored text denotes: `Some(None)` for the
/// sentinel `"null"`, `Some(Some(_))` for a readable timestamp in the
/// encodable range, and `None` for a corrupt text.
pub open spec fn spec_date_decode(s: Seq<char>) -> Option<Option<Timestamp>> {
    if s == "null"@ {
        Some(None)
    } else {
        match parse_ts(s) {
            Some(n) => if 0 <= n < TS_BOUND {
                Some(Some(Timestamp { secs: n }))
            } else {
                None
            },
            None => None,
        }
    }
}

/// The row a Profile is written as.
pub open spec fn spec_profile_encode(p: ProfileV) -> ProfileRowV {
    ProfileRowV {
        user_id: p.user_id,
        username: p.username,
        rank_id: p.rank_id,
        last_event_attended_date: spec_date_encode(p.last_event_attended_date),
        total_marks: p.total_marks,
        marks_at_current_rank: p.marks_at_current_rank,
        events_attended_this_week: p.events_attended_this_week,
    }
}

/// The Profile a stored row denotes, or `None` for a corrupt row.
pub open spec fn spec_profile_decode(r: ProfileRowV) -> Option<ProfileV> {
    match spec_date_decode(r.last_event_attended_date) {
        Some(d) => Some(ProfileV {
            user_id: r.user_id,
            username: r.username,
            rank_id: r.rank_id,
            last_event_attended_date: d,
            total_marks: r.total_marks,
            marks_at_current_rank: r.marks_at_current_rank,
            events_attended_this_week: r.events_attended_this_week,
        }),
        None => None,
    }
}

impl Profile {
    /// Reconstructs a Profile from a persisted row; a row whose date text
    /// is neither the `"null"` sentinel nor a readable timestamp in range
    /// is corrupt and aborts this single read.
    pub fn from_row(row: &ProfileRow) -> (r: Result<Profile, DecodeError>)
        ensures
            match r {
                Ok(p) => spec_profile_decode(row@) == Some(p@) && p.wf(),
                Err(e) => spec_profile_decode(row@) is None && e == DecodeError::BadTimestamp,
            },
    {
        let null_text: String = "null".to_owned();
        let last: Option<Timestamp> = if row.last_event_attended_date == null_text {
            None
        } else {
            match parse_rfc3339(row.last_event_attended_date.as_str()) {
                Some(n) => {
                    if 0 <= n && n < TS_BOUND {
                        Some(Timestamp { secs: n })
                    } else {
                        return Err(DecodeError::BadTimestamp);
                    }
                },
                None => {
                    return Err(DecodeError::BadTimestamp);
                },
            }
        };
        let p = Profile {
            user_id: row.user_id,
            username: match &row.username {
                Some(s) => Some(s.clone()),
                None => None,
            },
            rank_id: row.rank_id,
            last_event_attended_date: last,
            total_marks: row.total_marks,
            marks_at_current_rank: row.marks_at_current_rank,
            events_attended_this_week: row.events_attended_this_week,
        };
        proof {
            assert(spec_date_decode(row@.last_event_attended_date) == Some(
                p@.last_event_attended_date,
            ));
            assert(spec_profile_decode(row@) matches Some(q) && q =~= p@);
        }
        Ok(p)
    }

    /// Writes this Profile as a persisted row. Reconstruction is the exact
    /// inverse: decoding the produced row yields this Profile again, the
    /// `"null"` sentinel case included.
    pub fn to_row(&self) -> (r: ProfileRow)
        requires
            self.wf(),
        ensures
            r@ == spec_profile_encode(self@),
            spec_profile_decode(r@) == Some(self@),
    {
        let last_text: String = match self.last_event_attended_date {
            None => "null".to_owned(),
            Some(t) => format_rfc3339(t.secs),
        };
        proof {
            reveal_strlit("null");
        }
        let r = ProfileRow {
            user_id: self.user_id,
            username: match &self.username {
                Some(s) => Some(s.clone()),
                None => None,
            },
            rank_id: self.rank_id,
            last_event_attended_date: last_text,
            total_marks: self.total_marks,
            marks_at_current_rank: self.marks_at_current_rank,
            events_attended_this_week: self.events_attended_this_week,
        };
        proof {
            assert(r@ =~= spec_profile_encode(self@));
            assert(spec_date_decode(r@.last_event_attended_date) == Some(
                self@.last_event_attended_date,
            ));
            assert(spec_profile_decode(r@) matches Some(q) && q =~= self@);
        }
        r
    }
}

/// The request body for creating a Profile through the transport layer.
#[derive(Clone, Debug)]
pub struct CreateProfileBody {
    pub user_id: u64,
    pub username: String,
    pub rank_id: u64,
    pub events: i32,
    pub marks: i32,
}

} // verus!
