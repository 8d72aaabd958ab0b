use attendance::attendance::{attended_event_ids, process_attendance, promotable_ids};
use attendance::codec::DecodeError;
use attendance::event::{decode_events, Event, EventRow};
use attendance::profile::{Profile, ProfileRow};
use attendance::rank::{RankEntry, RankTable};
use attendance::time::{has_date_rolled_over, rolled_over_parts, Timestamp};

// 2024-05-11T12:00:00Z, a Saturday in ISO week 19.
const SAT_NOON: i64 = 1715428800;
// 2024-05-05T12:00:00Z, the Sunday of ISO week 18.
const SUN_BEFORE: i64 = SAT_NOON - 6 * 86400;
// 2024-05-06T12:00:00Z, the Monday of ISO week 19.
const MON_SAME_WEEK: i64 = SAT_NOON - 5 * 86400;
// 2024-07-28T00:00:00Z, the Sunday of ISO week 30 of 2024.
const SUNDAY_WEEK_30: i64 = 1722124800;
// 2025-07-22T00:00:00Z, the Tuesday of ISO week 30 of 2025.
const TUESDAY_WEEK_30_NEXT_YEAR: i64 = 1753142400;

fn table(events_per_mark: i32, entries: Vec<RankEntry>) -> RankTable {
    RankTable { events_per_mark, entries }
}

fn fresh(user_id: u64, rank_id: u64) -> Profile {
    Profile::new(user_id, None, rank_id)
}

#[test]
fn test_date_rollover() {
    let current_time = Timestamp::new(SAT_NOON);
    let t1 = Timestamp::new(SAT_NOON - 6 * 86400);
    let t2 = Timestamp::new(SAT_NOON - 5 * 86400);
    assert!(has_date_rolled_over(t1, current_time));
    assert!(!has_date_rolled_over(t2, current_time));
}

#[test]
fn rollover_same_instant_is_false() {
    let now = Timestamp::new(SAT_NOON);
    assert!(!has_date_rolled_over(now, now));
}

#[test]
fn rollover_sunday_rule_fires_across_equal_week_numbers() {
    // Both instants fall in an ISO week numbered 30, a year apart; only
    // the Sunday rule tells them apart.
    let prev = Timestamp::new(SUNDAY_WEEK_30);
    let now = Timestamp::new(TUESDAY_WEEK_30_NEXT_YEAR);
    assert!(has_date_rolled_over(prev, now));
}

#[test]
fn rollover_same_sunday_is_false() {
    let prev = Timestamp::new(SUNDAY_WEEK_30);
    let now = Timestamp::new(SUNDAY_WEEK_30 + 72000);
    assert!(!has_date_rolled_over(prev, now));
}

#[test]
fn rollover_parts_matches_rule() {
    assert!(rolled_over_parts(18, 6, 19, 5));
    assert!(!rolled_over_parts(19, 0, 19, 5));
    assert!(rolled_over_parts(30, 6, 30, 1));
    assert!(!rolled_over_parts(30, 6, 30, 6));
}

#[test]
fn award_mark_fires_on_exact_threshold() {
    let t = table(4, vec![]);
    let mut p = fresh(7, 1);
    p.events_attended_this_week = 3;
    assert!(!p.try_award_mark(&t));
    assert_eq!(p.total_marks, 0);
    p.events_attended_this_week = 4;
    assert!(p.try_award_mark(&t));
    assert_eq!(p.total_marks, 1);
    assert_eq!(p.marks_at_current_rank, 1);
    p.events_attended_this_week = 5;
    assert!(!p.try_award_mark(&t));
    assert_eq!(p.total_marks, 1);
}

#[test]
fn update_rank_same_id_is_noop() {
    let mut p = fresh(7, 3);
    p.marks_at_current_rank = 2;
    assert!(!p.try_update_rank(3));
    assert_eq!(p.rank_id, 3);
    assert_eq!(p.marks_at_current_rank, 2);
}

#[test]
fn update_rank_new_id_resets_progress() {
    let mut p = fresh(7, 3);
    p.marks_at_current_rank = 2;
    p.total_marks = 9;
    assert!(p.try_update_rank(4));
    assert_eq!(p.rank_id, 4);
    assert_eq!(p.marks_at_current_rank, 0);
    assert_eq!(p.total_marks, 9);
}

#[test]
fn reset_events_without_history_zeroes_and_reports_false() {
    let mut p = fresh(7, 1);
    p.events_attended_this_week = 3;
    let changed = p.try_reset_events(Timestamp::new(SAT_NOON));
    assert!(!changed);
    assert_eq!(p.events_attended_this_week, 0);
}

#[test]
fn reset_events_after_rollover_zeroes_and_reports_true() {
    let mut p = fresh(7, 1);
    p.last_event_attended_date = Some(Timestamp::new(SUN_BEFORE));
    p.events_attended_this_week = 3;
    let changed = p.try_reset_events(Timestamp::new(SAT_NOON));
    assert!(changed);
    assert_eq!(p.events_attended_this_week, 0);
}

#[test]
fn reset_events_within_week_is_noop() {
    let mut p = fresh(7, 1);
    p.last_event_attended_date = Some(Timestamp::new(MON_SAME_WEEK));
    p.events_attended_this_week = 3;
    let changed = p.try_reset_events(Timestamp::new(SAT_NOON));
    assert!(!changed);
    assert_eq!(p.events_attended_this_week, 3);
}

#[test]
fn should_promote_uses_first_matching_entry() {
    let t = table(
        4,
        vec![
            RankEntry { rank_id: 1, required_marks: Some(2) },
            RankEntry { rank_id: 1, required_marks: Some(9) },
            RankEntry { rank_id: 3, required_marks: None },
        ],
    );
    assert_eq!(t.required_marks(1), Some(2));
    assert_eq!(t.required_marks(3), None);
    assert_eq!(t.required_marks(42), None);

    let mut p = fresh(7, 1);
    p.marks_at_current_rank = 2;
    assert!(p.should_promote(&t));
    p.marks_at_current_rank = 1;
    assert!(!p.should_promote(&t));
    // a terminal rank never promotes
    let mut q = fresh(8, 3);
    q.marks_at_current_rank = 0;
    assert!(!q.should_promote(&t));
    // an unknown rank never promotes
    let u = fresh(9, 42);
    assert!(!u.should_promote(&t));
}

#[test]
fn event_row_round_trip() {
    let e = Event::new(
        5,
        vec![5, 6, 7],
        "Fort Kelsey".to_string(),
        "Training".to_string(),
        Timestamp::new(SAT_NOON),
    );
    let row = e.to_row();
    assert_eq!(row.host, 5);
    assert_eq!(row.attendance, "[5,6,7]");
    assert_eq!(row.event_date, "2024-05-11T12:00:00+00:00");
    let back = Event::from_row(&row).unwrap();
    assert_eq!(back.host, e.host);
    assert_eq!(back.attendance, e.attendance);
    assert_eq!(back.event_date, e.event_date);
    assert_eq!(back.location, e.location);
    assert_eq!(back.kind, e.kind);
    assert_eq!(back.metadata, e.metadata);
}

#[test]
fn event_row_round_trip_with_metadata() {
    let mut e = Event::new(
        1,
        vec![1],
        "Outpost".to_string(),
        "Patrol".to_string(),
        Timestamp::new(MON_SAME_WEEK),
    );
    e.metadata = Some("{\"awards\":{\"mvp\":\"6\"}}".to_string());
    let row = e.to_row();
    assert_eq!(row.metadata.as_deref(), Some("{\"awards\":{\"mvp\":\"6\"}}"));
    let back = Event::from_row(&row).unwrap();
    assert_eq!(back.metadata, e.metadata);
    assert_eq!(back.attendance, vec![1]);
}

#[test]
fn event_from_row_rejects_bad_attendance() {
    let row = EventRow {
        host: 1,
        attendance: "not json".to_string(),
        event_date: "2024-05-11T12:00:00+00:00".to_string(),
        location: "a".to_string(),
        kind: "b".to_string(),
        metadata: None,
    };
    assert_eq!(Event::from_row(&row).unwrap_err(), DecodeError::BadAttendance);
}

#[test]
fn event_from_row_rejects_bad_timestamp() {
    let row = EventRow {
        host: 1,
        attendance: "[1,2]".to_string(),
        event_date: "yesterday at noon".to_string(),
        location: "a".to_string(),
        kind: "b".to_string(),
        metadata: None,
    };
    assert_eq!(Event::from_row(&row).unwrap_err(), DecodeError::BadTimestamp);
}

#[test]
fn event_from_row_parses_stored_text() {
    let row = EventRow {
        host: 2,
        attendance: "[2,9]".to_string(),
        event_date: "2024-05-11T12:00:00+00:00".to_string(),
        location: "Fort".to_string(),
        kind: "Raid".to_string(),
        metadata: None,
    };
    let e = Event::from_row(&row).unwrap();
    assert_eq!(e.attendance, vec![2, 9]);
    assert_eq!(e.event_date, Timestamp::new(SAT_NOON));
}

#[test]
fn decode_events_aborts_on_first_corrupt_row() {
    let good = EventRow {
        host: 2,
        attendance: "[2]".to_string(),
        event_date: "2024-05-11T12:00:00+00:00".to_string(),
        location: "Fort".to_string(),
        kind: "Raid".to_string(),
        metadata: None,
    };
    let bad = EventRow { attendance: "oops".to_string(), ..good.clone() };
    let ok = decode_events(&vec![good.clone(), good.clone()]).unwrap();
    assert_eq!(ok.len(), 2);
    assert_eq!(ok[1].host, 2);
    let err = decode_events(&vec![good, bad]).unwrap_err();
    assert_eq!(err, DecodeError::BadAttendance);
}

#[test]
fn profile_row_round_trip_with_date() {
    let mut p = Profile::new(77, Some("Kira".to_string()), 3);
    p.last_event_attended_date = Some(Timestamp::new(SAT_NOON));
    p.total_marks = 12;
    p.marks_at_current_rank = 2;
    p.events_attended_this_week = 1;
    let row = p.to_row();
    assert_eq!(row.last_event_attended_date, "2024-05-11T12:00:00+00:00");
    let back = Profile::from_row(&row).unwrap();
    assert_eq!(back.user_id, p.user_id);
    assert_eq!(back.username, p.username);
    assert_eq!(back.rank_id, p.rank_id);
    assert_eq!(back.last_event_attended_date, p.last_event_attended_date);
    assert_eq!(back.total_marks, p.total_marks);
    assert_eq!(back.marks_at_current_rank, p.marks_at_current_rank);
    assert_eq!(back.events_attended_this_week, p.events_attended_this_week);
}

#[test]
fn profile_row_round_trip_null_sentinel() {
    let p = Profile::new(78, None, 1);
    let row = p.to_row();
    assert_eq!(row.last_event_attended_date, "null");
    assert_eq!(row.username, None);
    let back = Profile::from_row(&row).unwrap();
    assert_eq!(back.username, None);
    assert_eq!(back.last_event_attended_date, None);
    assert_eq!(back.total_marks, 0);
}

#[test]
fn profile_from_row_rejects_bad_date_text() {
    let row = ProfileRow {
        user_id: 1,
        username: None,
        rank_id: 1,
        last_event_attended_date: "202X-01-01".to_string(),
        total_marks: 0,
        marks_at_current_rank: 0,
        events_attended_this_week: 0,
    };
    assert_eq!(Profile::from_row(&row).unwrap_err(), DecodeError::BadTimestamp);
}

#[test]
fn fresh_attendees_each_get_one_event_counted() {
    // a host submits an event with three attendees, each with a fresh
    // profile; threshold 4
    let t = table(4, vec![RankEntry { rank_id: 1, required_marks: Some(10) }]);
    let event_date = Timestamp::new(SAT_NOON);
    let now = Timestamp::new(SAT_NOON);
    for user_id in [5u64, 6, 7] {
        let (p, awarded) = process_attendance(None, user_id, None, 1, event_date, now, &t);
        assert!(!awarded);
        assert_eq!(p.user_id, user_id);
        assert_eq!(p.events_attended_this_week, 1);
        assert_eq!(p.total_marks, 0);
        assert_eq!(p.last_event_attended_date, Some(event_date));
    }
}

#[test]
fn fourth_attendance_in_week_awards_mark() {
    // an attendee already at three events this week reaches the threshold
    let t = table(4, vec![RankEntry { rank_id: 1, required_marks: Some(10) }]);
    let mut p = fresh(9, 1);
    p.last_event_attended_date = Some(Timestamp::new(MON_SAME_WEEK));
    p.events_attended_this_week = 3;
    p.total_marks = 2;
    p.marks_at_current_rank = 1;
    let now = Timestamp::new(SAT_NOON);
    let (p, awarded) = process_attendance(Some(p), 9, None, 1, now, now, &t);
    assert!(awarded);
    assert_eq!(p.events_attended_this_week, 4);
    assert_eq!(p.total_marks, 3);
    assert_eq!(p.marks_at_current_rank, 2);
    // the next attendance of the same week does not re-fire
    let (p, awarded) = process_attendance(Some(p), 9, None, 1, now, now, &t);
    assert!(!awarded);
    assert_eq!(p.events_attended_this_week, 5);
    assert_eq!(p.total_marks, 3);
}

#[test]
fn attendance_after_rollover_starts_a_new_week() {
    let t = table(4, vec![]);
    let mut p = fresh(9, 1);
    p.last_event_attended_date = Some(Timestamp::new(SUN_BEFORE));
    p.events_attended_this_week = 4;
    let now = Timestamp::new(SAT_NOON);
    let (p, awarded) = process_attendance(Some(p), 9, None, 1, now, now, &t);
    assert!(!awarded);
    assert_eq!(p.events_attended_this_week, 1);
}

#[test]
fn promotion_cycle_resets_progress() {
    // marks at the current rank reach the rank's threshold, the directory
    // promotes, and the confirmation clears the local progress
    let t = table(
        4,
        vec![
            RankEntry { rank_id: 1, required_marks: Some(2) },
            RankEntry { rank_id: 2, required_marks: Some(5) },
        ],
    );
    let mut p = fresh(7, 1);
    p.marks_at_current_rank = 2;
    p.total_marks = 2;
    assert!(p.should_promote(&t));
    assert!(p.try_update_rank(2));
    assert_eq!(p.marks_at_current_rank, 0);
    assert!(!p.should_promote(&t));
}

#[test]
fn promotable_ids_picks_exactly_the_due_members() {
    let t = table(
        4,
        vec![
            RankEntry { rank_id: 1, required_marks: Some(2) },
            RankEntry { rank_id: 2, required_marks: None },
        ],
    );
    let mut a = fresh(1, 1);
    a.marks_at_current_rank = 2;
    let mut b = fresh(2, 1);
    b.marks_at_current_rank = 1;
    let mut c = fresh(3, 2);
    c.marks_at_current_rank = 0;
    let mut d = fresh(4, 1);
    d.marks_at_current_rank = 2;
    let ids = promotable_ids(&vec![a, b, c, d], &t);
    assert_eq!(ids, vec![1, 4]);
}

#[test]
fn attended_event_ids_picks_events_with_the_member() {
    let mk = |host: u64, attendance: Vec<u64>| {
        Event::new(host, attendance, "Fort".to_string(), "Raid".to_string(), Timestamp::new(SAT_NOON))
    };
    let events = vec![
        (10u64, mk(1, vec![1, 2, 3])),
        (11u64, mk(2, vec![2])),
        (12u64, mk(3, vec![3, 1])),
    ];
    assert_eq!(attended_event_ids(&events, 1), vec![10, 12]);
    assert_eq!(attended_event_ids(&events, 2), vec![10, 11]);
    assert_eq!(attended_event_ids(&events, 9), Vec::<u64>::new());
    assert_eq!(attended_event_ids(&events, 1).len(), 2);
}
