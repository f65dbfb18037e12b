use vstd::prelude::*;

use crate::record::record_fields;
use crate::timestamp::{parse_rfc3339, rfc3339_instant, Timestamp};

verus! {

/// The kind of engagement an event records.
#[derive(Debug, Clone, Copy, PartialEq, Eq, Structural)]
pub enum EventType {
    View,
    Share,
    Like,
}

/// The event type named by a field, if the field is one of the three
/// lowercase literals.
pub open spec fn event_type_of(s: Seq<char>) -> Option<EventType> {
    if s == "view"@ {
        Some(EventType::View)
    } else if s == "share"@ {
        Some(EventType::Share)
    } else if s == "like"@ {
        Some(EventType::Like)
    } else {
        None
    }
}

/// Character-by-character equality of two strings.
fn same_text(a: &str, b: &str) -> (r: bool)
    ensures
        r == (a@ == b@),
{
    let n: usize = a.unicode_len();
    if n != b.unicode_len() {
        return false;
    }
    let mut i: usize = 0;
    while i < n
        invariant
            n == a@.len(),
            n == b@.len(),
            i <= n,
            a@.subrange(0, i as int) == b@.subrange(0, i as int),
        decreases n - i,
    {
        if a.get_char(i) != b.get_char(i) {
            return false;
        }
        assert(a@.subrange(0, i + 1) == a@.subrange(0, i as int).push(a@[i as int]));
        assert(b@.subrange(0, i + 1) == b@.subrange(0, i as int).push(b@[i as int]));
        i = i + 1;
    }
    assert(a@ == a@.subrange(0, n as int));
    assert(b@ == b@.subrange(0, n as int));
    true
}

impl EventType {
    /// Reads an event type from its exact lowercase name; no trimming and no
    /// case folding.
    pub fn parse(s: &str) -> (r: Option<EventType>)
        ensures
            r == event_type_of(s@),
    {
        if same_text(s, "view") {
            Some(EventType::View)
        } else if same_text(s, "share") {
            Some(EventType::Share)
        } else if same_text(s, "like") {
            Some(EventType::Like)
        } else {
            None
        }
    }
}

/// One user-engagement event: who, on which article, when, and what they did.
#[derive(Debug, Clone)]
pub struct Event {
    user_id: String,
    article_id: String,
    timestamp: Timestamp,
    event_type: EventType,
}

/// What an event holds, with its identifiers as character sequences.
pub struct EventView {
    pub user_id: Seq<char>,
    pub article_id: Seq<char>,
    pub timestamp: Timestamp,
    pub event_type: EventType,
}

impl View for Event {
    type V = EventView;

    closed spec fn view(&self) -> EventView {
        EventView {
            user_id: self.user_id@,
            article_id: self.article_id@,
            timestamp: self.timestamp,
            event_type: self.event_type,
        }
    }
}

/// The message for a row whose field count is not four.
pub open spec fn wrong_field_count_message() -> Seq<char> {
    "Record does not have exactly 4 fields"@
}

/// What every message about a refused timestamp starts with; the parser's
/// own description follows it.
pub open spec fn invalid_timestamp_prefix() -> Seq<char> {
    "Invalid timestamp format: "@
}

/// The message for an event-type field that names no known type.
pub open spec fn unknown_event_type_message(s: Seq<char>) -> Seq<char> {
    "Unknown event type: "@ + s
}

/// An outcome of parsing, with the event and the message as sequences.
pub open spec fn outcome_view(r: Result<Event, String>) -> Result<EventView, Seq<char>> {
    match r {
        Ok(e) => Ok(e@),
        Err(m) => Err(m@),
    }
}

/// A timestamp outcome, with the parser's description as a sequence.
pub open spec fn timestamp_outcome_view(t: Result<Timestamp, String>) -> Result<Timestamp, Seq<char>> {
    match t {
        Ok(v) => Ok(v),
        Err(m) => Err(m@),
    }
}

/// The event built from its four fields once the timestamp field has been
/// read: a refused timestamp comes first, then an unknown event type.
pub open spec fn assembled(
    user_id: Seq<char>,
    article_id: Seq<char>,
    timestamp: Result<Timestamp, Seq<char>>,
    event_type: Seq<char>,
) -> Result<EventView, Seq<char>> {
    match timestamp {
        Err(detail) => Err(invalid_timestamp_prefix() + detail),
        Ok(t) => match event_type_of(event_type) {
            None => Err(unknown_event_type_message(event_type)),
            Some(k) => Ok(EventView { user_id, article_id, timestamp: t, event_type: k }),
        },
    }
}

/// The instant that an accepted RFC 3339 text denotes.
pub open spec fn instant_of(s: Seq<char>) -> Timestamp {
    let (secs, nanos) = rfc3339_instant(s)->0;
    Timestamp { unix_seconds: secs, subsec_nanos: nanos }
}

/// What parsing a row with these fields may return: the field count is
/// checked first, then the timestamp, then the event type. Where chrono
/// refuses the timestamp, the message is the fixed prefix followed by its
/// description.
pub open spec fn parsed_as(fields: Seq<Seq<char>>, r: Result<Event, String>) -> bool {
    if fields.len() != 4 {
        outcome_view(r) == Err::<EventView, Seq<char>>(wrong_field_count_message())
    } else if rfc3339_instant(fields[2]) is None {
        r is Err && invalid_timestamp_prefix().is_prefix_of(r->Err_0@)
    } else {
        outcome_view(r) == assembled(fields[0], fields[1], Ok(instant_of(fields[2])), fields[3])
    }
}

/// A string holding the given text.
fn text(s: &str) -> (r: String)
    ensures
        r@ == s@,
{
    String::from_str(s)
}

/// The first text followed by the second.
fn joined(a: &str, b: &str) -> (r: String)
    ensures
        r@ == a@ + b@,
{
    let mut r = String::from_str(a);
    r.append(b);
    r
}

impl Event {
    fn new(user_id: String, article_id: String, timestamp: Timestamp, event_type: EventType) -> (r: Event)
        ensures
            r@ == (EventView { user_id: user_id@, article_id: article_id@, timestamp, event_type }),
    {
        Event { user_id, article_id, timestamp, event_type }
    }

    /// The id of the user who acted.
    pub fn user_id(&self) -> (r: &str)
        ensures
            r@ == self@.user_id,
    {
        self.user_id.as_str()
    }

    /// The id of the article acted on.
    pub fn article_id(&self) -> (r: &str)
        ensures
            r@ == self@.article_id,
    {
        self.article_id.as_str()
    }

    /// When the event happened, in UTC.
    pub fn timestamp(&self) -> (r: Timestamp)
        ensures
            r == self@.timestamp,
    {
        self.timestamp
    }

    /// What the user did.
    pub fn event_type(&self) -> (r: EventType)
        ensures
            r == self@.event_type,
    {
        self.event_type
    }

    /// Builds an event from its identifiers, the outcome of reading the
    /// timestamp field (an instant, or the parser's description of why the
    /// text was refused) and the event-type field.
    pub fn from_parts(
        user_id: &str,
        article_id: &str,
        timestamp: Result<Timestamp, String>,
        event_type: &str,
    ) -> (r: Result<Event, String>)
        ensures
            outcome_view(r) == assembled(user_id@, article_id@, timestamp_outcome_view(timestamp), event_type@),
    {
        let t = match timestamp {
            Ok(t) => t,
            Err(detail) => {
                return Err(joined("Invalid timestamp format: ", detail.as_str()));
            },
        };
        let kind = match EventType::parse(event_type) {
            Some(k) => k,
            None => {
                return Err(joined("Unknown event type: ", event_type));
            },
        };
        Ok(Event::new(text(user_id), text(article_id), t, kind))
    }

    /// Parses a row of the form `user_id, article_id, timestamp, event_type`.
    /// The timestamp must be RFC 3339 and is kept in UTC; the event type must
    /// be exactly `view`, `share` or `like`. The first check that fails gives
    /// the error message.
    pub fn from_csv_record(record: &csv::StringRecord) -> (r: Result<Event, String>)
        ensures
            parsed_as(record_fields(*record), r),
    {
        if record.len() != 4 {
            return Err(text("Record does not have exactly 4 fields"));
        }
        let user_id = match record.get(0) {
            Some(f) => f,
            None => {
                return Err(text("Missing user_id"));
            },
        };
        let article_id = match record.get(1) {
            Some(f) => f,
            None => {
                return Err(text("Missing article_id"));
            },
        };
        let timestamp_str = match record.get(2) {
            Some(f) => f,
            None => {
                return Err(text("Missing timestamp"));
            },
        };
        let timestamp = match parse_rfc3339(timestamp_str) {
            Ok(t) => Ok(t),
            Err(e) => Err(e.to_string()),
        };
        let event_type_str = match record.get(3) {
            Some(f) => f,
            None => {
                return Err(text("Missing event_type"));
            },
        };
        Event::from_parts(user_id, article_id, timestamp, event_type_str)
    }
}

/// A row of four fields whose timestamp chrono accepts and whose event type
/// is one of the three names parses to the event with those identifiers
/// verbatim, the timestamp's instant in UTC, and that event type.
pub proof fn lemma_valid_row_parses(record: csv::StringRecord, r: Result<Event, String>)
    requires
        record_fields(record).len() == 4,
        rfc3339_instant(record_fields(record)[2]) is Some,
        event_type_of(record_fields(record)[3]) is Some,
        parsed_as(record_fields(record), r),
    ensures
        r is Ok,
        r->Ok_0@ == (EventView {
            user_id: record_fields(record)[0],
            article_id: record_fields(record)[1],
            timestamp: instant_of(record_fields(record)[2]),
            event_type: event_type_of(record_fields(record)[3])->0,
        }),
{
}

/// A row whose field count is not four is refused with the field-count
/// message, whatever its fields hold.
pub proof fn lemma_wrong_field_count(record: csv::StringRecord, r: Result<Event, String>)
    requires
        record_fields(record).len() != 4,
        parsed_as(record_fields(record), r),
    ensures
        r is Err,
        r->Err_0@ == wrong_field_count_message(),
{
}

/// A row of four fields whose timestamp chrono refuses is refused with a
/// message that starts with the timestamp prefix.
pub proof fn lemma_refused_timestamp(record: csv::StringRecord, r: Result<Event, String>)
    requires
        record_fields(record).len() == 4,
        rfc3339_instant(record_fields(record)[2]) is None,
        parsed_as(record_fields(record), r),
    ensures
        r is Err,
        invalid_timestamp_prefix().is_prefix_of(r->Err_0@),
{
}

/// A row of four fields with an accepted timestamp and an event type other
/// than the three names is refused with a message that quotes the field.
pub proof fn lemma_unknown_event_type(record: csv::StringRecord, r: Result<Event, String>)
    requires
        record_fields(record).len() == 4,
        rfc3339_instant(record_fields(record)[2]) is Some,
        record_fields(record)[3] != "view"@,
        record_fields(record)[3] != "share"@,
        record_fields(record)[3] != "like"@,
        parsed_as(record_fields(record), r),
    ensures
        r is Err,
        r->Err_0@ == unknown_event_type_message(record_fields(record)[3]),
{
}

/// Two parses of rows with the same fields agree: both succeed with the same
/// event, or both fail; and their messages are the same unless chrono refused
/// the timestamp, in which case both start with the timestamp prefix.
pub proof fn lemma_parse_repeatable(
    a: csv::StringRecord,
    b: csv::StringRecord,
    ra: Result<Event, String>,
    rb: Result<Event, String>,
)
    requires
        record_fields(a) == record_fields(b),
        parsed_as(record_fields(a), ra),
        parsed_as(record_fields(b), rb),
    ensures
        ra is Ok <==> rb is Ok,
        ra is Ok ==> ra->Ok_0@ == rb->Ok_0@,
        ra is Err && (record_fields(a).len() != 4 || rfc3339_instant(record_fields(a)[2]) is Some)
            ==> ra->Err_0@ == rb->Err_0@,
        ra is Err ==> (ra->Err_0@ == rb->Err_0@ || (invalid_timestamp_prefix().is_prefix_of(ra->Err_0@)
            && invalid_timestamp_prefix().is_prefix_of(rb->Err_0@))),
{
}

} // verus!
