//! The attendance-logging orchestration: for one attendee of a newly
//! recorded event, the sequenced rules of reset, increment, date update
//! and mark award; and the promotion sweep over a candidate set.

use crate::event::Event;
use crate::profile::{
    spec_after_award, spec_after_reset, spec_after_update_rank, spec_award_fires,
    spec_should_promote, Profile, ProfileV,
};
use crate::rank::RankTable;
use crate::time::{spec_rolled_over, Timestamp};
use vstd::prelude::*;

verus! {

/// The state with the weekly counter grown by one.
pub open spec fn spec_incremented(p: ProfileV) -> ProfileV {
    ProfileV { events_attended_this_week: (p.events_attended_this_week + 1) as i32, ..p }
}

/// The state with the last attendance date set.
pub open spec fn spec_with_date(p: ProfileV, d: Timestamp) -> ProfileV {
    ProfileV { last_event_attended_date: Some(d), ..p }
}

/// One attendee's full update for one event: reset the weekly counter if
/// the stored week has rolled over, then count this attendance, then
/// record its date, then award a mark if the counter has just reached the
/// threshold. The reset must precede the increment, and the award check
/// must follow it.
pub open spec fn spec_attend(
    p: ProfileV,
    event_date: Timestamp,
    now: Timestamp,
    events_per_mark: i32,
) -> ProfileV {
    spec_after_award(
        spec_with_date(spec_incremented(spec_after_reset(p, now)), event_date),
        events_per_mark,
    )
}

/// Whether one attendee's update awards a mark.
pub open spec fn spec_attend_awards(
    p: ProfileV,
    event_date: Timestamp,
    now: Timestamp,
    events_per_mark: i32,
) -> bool {
    spec_award_fires(
        spec_with_date(spec_incremented(spec_after_reset(p, now)), event_date),
        events_per_mark,
    )
}

/// The profile an attendee starts from: the stored one, or a fresh one
/// with zeroed counters under the Group Directory's current rank.
pub open spec fn spec_initial_profile(
    existing: Option<ProfileV>,
    user_id: u64,
    username: Option<Seq<char>>,
    directory_rank_id: u64,
) -> ProfileV {
    match existing {
        Some(p) => p,
        None => ProfileV {
            user_id,
            username,
            rank_id: directory_rank_id,
            last_event_attended_date: None,
            total_marks: 0,
            marks_at_current_rank: 0,
            events_attended_this_week: 0,
        },
    }
}

/// The value of an optionally fetched profile.
pub open spec fn spec_opt_profile_view(p: Option<Profile>) -> Option<ProfileV> {
    match p {
        Some(q) => Some(q@),
        None => None,
    }
}

/// The value of an optional display name.
pub open spec fn spec_opt_name_view(s: Option<String>) -> Option<Seq<char>> {
    match s {
        Some(q) => Some(q@),
        None => None,
    }
}

/// Processes one attendee of a newly recorded event: starts from the
/// fetched profile, or a fresh one under the directory's rank where none
/// exists, applies the weekly reset against `now`, counts the attendance,
/// records the event's date, and applies the mark award. Returns the
/// updated profile, to be persisted by the caller, and whether a mark was
/// awarded.
pub fn process_attendance(
    existing: Option<Profile>,
    user_id: u64,
    username: Option<String>,
    directory_rank_id: u64,
    event_date: Timestamp,
    now: Timestamp,
    table: &RankTable,
) -> (r: (Profile, bool))
    requires
        event_date.wf(),
        now.wf(),
        (match existing {
            Some(p) => p.wf() && p.events_attended_this_week < i32::MAX && p.total_marks
                < i32::MAX && p.marks_at_current_rank < i32::MAX,
            None => true,
        }),
    ensures
        r.0@ == spec_attend(
            spec_initial_profile(
                spec_opt_profile_view(existing),
                user_id,
                spec_opt_name_view(username),
                directory_rank_id,
            ),
            event_date,
            now,
            table.events_per_mark,
        ),
        r.1 == spec_attend_awards(
            spec_initial_profile(
                spec_opt_profile_view(existing),
                user_id,
                spec_opt_name_view(username),
                directory_rank_id,
            ),
            event_date,
            now,
            table.events_per_mark,
        ),
        r.0.wf(),
{
    let mut p = match existing {
        Some(p0) => p0,
        None => Profile::new(user_id, username, directory_rank_id),
    };
    p.try_reset_events(now);
    p.events_attended_this_week = p.events_attended_this_week + 1;
    p.last_event_attended_date = Some(event_date);
    let awarded = p.try_award_mark(table);
    (p, awarded)
}

/// The members of a candidate list that are due for promotion, in order.
pub open spec fn spec_promotable(profiles: Seq<Profile>, table: RankTable) -> Seq<u64>
    decreases profiles.len(),
{
    if profiles.len() == 0 {
        Seq::empty()
    } else {
        let rest = spec_promotable(profiles.drop_last(), table);
        if spec_should_promote(profiles.last()@, table) {
            rest.push(profiles.last().user_id)
        } else {
            rest
        }
    }
}

/// The promotion sweep's local half: the identifiers of the candidates
/// that are due for promotion under the table, in the order given. The
/// promotion itself is a directory-side action; once the directory
/// reflects it, the caller confirms with `Profile::try_update_rank`.
pub fn promotable_ids(profiles: &Vec<Profile>, table: &RankTable) -> (r: Vec<u64>)
    ensures
        r@ == spec_promotable(profiles@, *table),
{
    let mut r: Vec<u64> = Vec::new();
    let mut i: usize = 0;
    while i < profiles.len()
        invariant
            0 <= i <= profiles@.len(),
            r@ == spec_promotable(profiles@.take(i as int), *table),
        decreases profiles@.len() - i,
    {
        proof {
            assert(profiles@.take(i + 1int).drop_last() =~= profiles@.take(i as int));
            assert(profiles@.take(i + 1int).last() == profiles@[i as int]);
        }
        if profiles[i].should_promote(table) {
            r.push(profiles[i].user_id);
        }
        i = i + 1;
    }
    proof {
        assert(profiles@.take(profiles@.len() as int) =~= profiles@);
    }
    r
}

/// Whether a member appears in an attendance list.
pub fn contains_id(ids: &Vec<u64>, user_id: u64) -> (r: bool)
    ensures
        r == ids@.contains(user_id),
{
    let mut i: usize = 0;
    while i < ids.len()
        invariant
            0 <= i <= ids@.len(),
            forall|j: int| 0 <= j < i ==> ids@[j] != user_id,
        decreases ids@.len() - i,
    {
        if ids[i] == user_id {
            return true;
        }
        i = i + 1;
    }
    false
}

/// The identifiers of the stored events whose attendance includes the
/// member, in the order given; each event comes with its store-assigned
/// identifier.
pub open spec fn spec_attended_ids(events: Seq<(u64, Event)>, user_id: u64) -> Seq<u64>
    decreases events.len(),
{
    if events.len() == 0 {
        Seq::empty()
    } else {
        let rest = spec_attended_ids(events.drop_last(), user_id);
        if events.last().1@.attendance.contains(user_id) {
            rest.push(events.last().0)
        } else {
            rest
        }
    }
}

/// Picks, from the stored events, the identifiers of those the member
/// attended, in order. Its length is the member's attendance count.
pub fn attended_event_ids(events: &Vec<(u64, Event)>, user_id: u64) -> (r: Vec<u64>)
    ensures
        r@ == spec_attended_ids(events@, user_id),
{
    let mut r: Vec<u64> = Vec::new();
    let mut i: usize = 0;
    while i < events.len()
        invariant
            0 <= i <= events@.len(),
            r@ == spec_attended_ids(events@.take(i as int), user_id),
        decreases events@.len() - i,
    {
        proof {
            assert(events@.take(i + 1int).drop_last() =~= events@.take(i as int));
            assert(events@.take(i + 1int).last() == events@[i as int]);
        }
        if contains_id(&events[i].1.attendance, user_id) {
            r.push(events[i].0);
        }
        i = i + 1;
    }
    proof {
        assert(events@.take(events@.len() as int) =~= events@);
    }
    r
}

/// A mark cannot be earned twice in one tracking week. Once an
/// attendance awards a mark, the next attendance processed for the same
/// member, at an instant the recorded week has not rolled over to, does
/// not award another: its counter stands past the threshold, and the
/// award rule asks for exact equality.
pub proof fn lemma_mark_not_refired(
    p: ProfileV,
    event_date1: Timestamp,
    event_date2: Timestamp,
    now1: Timestamp,
    now2: Timestamp,
    events_per_mark: i32,
)
    requires
        events_per_mark < i32::MAX,
        spec_attend_awards(p, event_date1, now1, events_per_mark),
        !spec_rolled_over(event_date1, now2),
    ensures
        !spec_attend_awards(
            spec_attend(p, event_date1, now1, events_per_mark),
            event_date2,
            now2,
            events_per_mark,
        ),
        spec_attend(
            spec_attend(p, event_date1, now1, events_per_mark),
            event_date2,
            now2,
            events_per_mark,
        ).total_marks == spec_attend(p, event_date1, now1, events_per_mark).total_marks,
        spec_attend(
            spec_attend(p, event_date1, now1, events_per_mark),
            event_date2,
            now2,
            events_per_mark,
        ).marks_at_current_rank == spec_attend(
            p,
            event_date1,
            now1,
            events_per_mark,
        ).marks_at_current_rank,
{
    let q = spec_attend(p, event_date1, now1, events_per_mark);
    assert(q.events_attended_this_week == events_per_mark);
    assert(q.last_event_attended_date == Some(event_date1));
    assert(spec_after_reset(q, now2) == q);
}

/// A member's lifetime mark count never decreases: not by the weekly
/// reset, not by a rank change, and not by an attendance update, which
/// can only grow it.
pub proof fn lemma_total_marks_monotonic(
    p: ProfileV,
    event_date: Timestamp,
    now: Timestamp,
    new_rank_id: u64,
    events_per_mark: i32,
)
    requires
        p.total_marks < i32::MAX,
    ensures
        spec_after_reset(p, now).total_marks == p.total_marks,
        spec_after_update_rank(p, new_rank_id).total_marks == p.total_marks,
        spec_attend(p, event_date, now, events_per_mark).total_marks >= p.total_marks,
{
}

} // verus!
