//! Events — immutable records of a single gathering — and the Event row
//! encoding.

use crate::codec::{decode_ids, encode_ids, json_of_ids, parse_ids, DecodeError};
use crate::time::{format_rfc3339, parse_rfc3339, parse_ts, rfc3339_of, Timestamp, TS_BOUND};
use vstd::prelude::*;

verus! {

/// An immutable record of a single gathering: host, full attendee list,
/// timestamp, category, location, and optional free-form metadata. The
/// metadata is a JSON object of objects kept as text; it is opaque to the
/// engine and only carried through.
#[derive(Clone, Debug)]
pub struct Event {
    pub host: u64,
    /// Member identifiers present, host included. Uniqueness is not
    /// enforced; duplicates are a caller error, tolerated.
    pub attendance: Vec<u64>,
    /// Timestamp at creation time (UTC), immutable once set.
    pub event_date: Timestamp,
    pub location: String,
    pub kind: String,
    pub metadata: Option<String>,
}

/// The mathematical value of an `Event`.
#[verifier::ext_equal]
pub ghost struct EventV {
    pub host: u64,
    pub attendance: Seq<u64>,
    pub event_date: Timestamp,
    pub location: Seq<char>,
    pub kind: Seq<char>,
    pub metadata: Option<Seq<char>>,
}

impl View for Event {
    type V = EventV;

    open spec fn view(&self) -> EventV {
        EventV {
            host: self.host,
            attendance: self.attendance@,
            event_date: self.event_date,
            location: self.location@,
            kind: self.kind@,
            metadata: match self.metadata {
                Some(s) => Some(s@),
                None => None,
            },
        }
    }
}

impl Event {
    /// The event date lies in the encodable range.
    pub open spec fn wf(self) -> bool {
        self.event_date.wf()
    }

    /// A new Event for the given gathering, with no metadata.
    pub fn new(
        host: u64,
        attendance: Vec<u64>,
        location: String,
        kind: String,
        event_date: Timestamp,
    ) -> (r: Event)
        requires
            event_date.wf(),
        ensures
            r@ == (EventV {
                host,
                attendance: attendance@,
                event_date,
                location: location@,
                kind: kind@,
                metadata: None,
            }),
            r.wf(),
    {
        Event { host, attendance, event_date, location, kind, metadata: None }
    }
}

/// A persisted Event row. The columns, in order after the store's own
/// surrogate id: host, attendance (a JSON array of member identifiers,
/// as text), event date (RFC 3339 text), location, kind, and the optional
/// metadata text.
#[derive(Clone, Debug)]
pub struct EventRow {
    pub host: u64,
    pub attendance: String,
    pub event_date: String,
    pub location: String,
    pub kind: String,
    pub metadata: Option<String>,
}

/// The mathematical value of an `EventRow`.
#[verifier::ext_equal]
pub ghost struct EventRowV {
    pub host: u64,
    pub attendance: Seq<char>,
    pub event_date: Seq<char>,
    pub location: Seq<char>,
    pub kind: Seq<char>,
    pub metadata: Option<Seq<char>>,
}

impl View for EventRow {
    type V = EventRowV;

    open spec fn view(&self) -> EventRowV {
        EventRowV {
            host: self.host,
            attendance: self.attendance@,
            event_date: self.event_date@,
            location: self.location@,
            kind: self.kind@,
            metadata: match self.metadata {
                Some(s) => Some(s@),
                None => None,
            },
        }
    }
}

/// The row an Event is written as.
pub open spec fn spec_event_encode(e: EventV) -> EventRowV {
    EventRowV {
        host: e.host,
        attendance: json_of_ids(e.attendance),
        event_date: rfc3339_of(e.event_date.secs),
        location: e.location,
        kind: e.kind,
        metadata: e.metadata,
    }
}

/// The Event a stored row denotes, or `None` for a corrupt row: one whose
/// attendance text is not a JSON array of identifiers, or whose date text
/// is not a readable timestamp in the encodable range.
pub open spec fn spec_event_decode(r: EventRowV) -> Option<EventV> {
    match parse_ids(r.attendance) {
        None => None,
        Some(ids) => match parse_ts(r.event_date) {
            Some(n) => if 0 <= n < TS_BOUND {
                Some(EventV {
                    host: r.host,
                    attendance: ids,
                    event_date: Timestamp { secs: n },
                    location: r.location,
                    kind: r.kind,
                    metadata: r.metadata,
                })
            } else {
                None
            },
            None => None,
        },
    }
}

impl Event {
    /// Reconstructs an Event from a persisted row; a corrupt row aborts
    /// this single read, and the error names the column that failed.
    pub fn from_row(row: &EventRow) -> (r: Result<Event, DecodeError>)
        ensures
            match r {
                Ok(e) => spec_event_decode(row@) == Some(e@) && e.wf(),
                Err(er) => spec_event_decode(row@) is None && er == (
                if parse_ids(row@.attendance) is None {
                    DecodeError::BadAttendance
                } else {
                    DecodeError::BadTimestamp
                }),
            },
    {
        let attendance: Vec<u64> = match decode_ids(row.attendance.as_str()) {
            Some(v) => v,
            None => {
                return Err(DecodeError::BadAttendance);
            },
        };
        let secs: i64 = match parse_rfc3339(row.event_date.as_str()) {
            Some(n) => n,
            None => {
                return Err(DecodeError::BadTimestamp);
            },
        };
        if !(0 <= secs && secs < TS_BOUND) {
            return Err(DecodeError::BadTimestamp);
        }
        let e = Event {
            host: row.host,
            attendance,
            event_date: Timestamp { secs },
            location: row.location.clone(),
            kind: row.kind.clone(),
            metadata: match &row.metadata {
                Some(s) => Some(s.clone()),
                None => None,
            },
        };
        proof {
            assert(spec_event_decode(row@) matches Some(v) && v =~= e@);
        }
        Ok(e)
    }

    /// Writes this Event as a persisted row. Reconstruction is the exact
    /// inverse: decoding the produced row yields this Event again, every
    /// field included.
    pub fn to_row(&self) -> (r: EventRow)
        requires
            self.wf(),
        ensures
            r@ == spec_event_encode(self@),
            spec_event_decode(r@) == Some(self@),
    {
        let r = EventRow {
            host: self.host,
            attendance: encode_ids(&self.attendance),
            event_date: format_rfc3339(self.event_date.secs),
            location: self.location.clone(),
            kind: self.kind.clone(),
            metadata: match &self.metadata {
                Some(s) => Some(s.clone()),
                None => None,
            },
        };
        proof {
            assert(r@ =~= spec_event_encode(self@));
            assert(spec_event_decode(r@) matches Some(v) && v =~= self@);
        }
        r
    }
}

/// Reconstructs every Event of a list of rows, in order; the first corrupt
/// row aborts the whole read with its error.
pub fn decode_events(rows: &Vec<EventRow>) -> (r: Result<Vec<Event>, DecodeError>)
    ensures
        match r {
            Ok(es) => es@.len() == rows@.len() && forall|i: int|
                0 <= i < rows@.len() ==> spec_event_decode(rows@[i]@) == Some(#[trigger] es@[i]@),
            Err(er) => exists|i: int|
                0 <= i < rows@.len() && spec_event_decode(#[trigger] rows@[i]@) is None && (forall|
                    j: int,
                |
                    0 <= j < i ==> spec_event_decode(#[trigger] rows@[j]@) is Some) && er == (
                if parse_ids(rows@[i]@.attendance) is None {
                    DecodeError::BadAttendance
                } else {
                    DecodeError::BadTimestamp
                }),
        },
{
    let mut es: Vec<Event> = Vec::new();
    let mut i: usize = 0;
    while i < rows.len()
        invariant
            0 <= i <= rows@.len(),
            es@.len() == i,
            forall|j: int| 0 <= j < i ==> spec_event_decode(rows@[j]@) == Some(#[trigger] es@[j]@),
        decreases rows@.len() - i,
    {
        match Event::from_row(&rows[i]) {
            Ok(e) => es.push(e),
            Err(er) => {
                proof {
                    assert forall|j: int| 0 <= j < i implies spec_event_decode(
                        #[trigger] rows@[j]@,
                    ) is Some by {
                        assert(spec_event_decode(rows@[j]@) == Some(es@[j]@));
                    }
                    assert(0 <= i < rows@.len() && spec_event_decode(rows@[i as int]@) is None && (
                    forall|j: int|
                        0 <= j < i ==> spec_event_decode(#[trigger] rows@[j]@) is Some) && er == (
                    if parse_ids(rows@[i as int]@.attendance) is None {
                        DecodeError::BadAttendance
                    } else {
                        DecodeError::BadTimestamp
                    }));
                }
                return Err(er);
            },
        }
        i = i + 1;
    }
    Ok(es)
}

/// The request body a host submits to report an event: the attendees come
/// as display names, resolved to member identifiers at the boundary.
#[derive(Clone, Debug)]
pub struct EventJsonBody {
    pub host: u64,
    pub names: Vec<String>,
    pub location: String,
    pub kind: String,
    pub metadata: Option<String>,
}

} // verus!
