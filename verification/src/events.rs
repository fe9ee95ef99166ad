//! Events: records, creation requests and their validation.
use uuid::Uuid;
use vstd::prelude::*;

use crate::text::{byte_len, is_blank, is_blank_text, same_text, utf8_len};
use crate::time::Timestamp;

verus! {

#[derive(Debug, Clone, Copy, PartialEq, Eq, Structural)]
pub enum EventStatus {
    Draft,
    Published,
    Cancelled,
    Completed,
}

impl Default for EventStatus {
    /// A new event starts as a draft.
    fn default() -> (s: Self)
        ensures
            s == EventStatus::Draft,
    {
        EventStatus::Draft
    }
}

impl EventStatus {
    /// The name of the status on the wire (snake case).
    pub open spec fn wire(self) -> Seq<char> {
        match self {
            EventStatus::Draft => "draft"@,
            EventStatus::Published => "published"@,
            EventStatus::Cancelled => "cancelled"@,
            EventStatus::Completed => "completed"@,
        }
    }

    /// The status that a wire name denotes, if any.
    pub open spec fn parse_wire(name: Seq<char>) -> Option<EventStatus> {
        if name == "draft"@ {
            Some(EventStatus::Draft)
        } else if name == "published"@ {
            Some(EventStatus::Published)
        } else if name == "cancelled"@ {
            Some(EventStatus::Cancelled)
        } else if name == "completed"@ {
            Some(EventStatus::Completed)
        } else {
            None
        }
    }

    /// The name of the status on the wire.
    pub fn wire_name(&self) -> (name: &'static str)
        ensures
            name@ == self.wire(),
            *self == EventStatus::Draft ==> name@ == "draft"@,
            *self == EventStatus::Published ==> name@ == "published"@,
            *self == EventStatus::Cancelled ==> name@ == "cancelled"@,
            *self == EventStatus::Completed ==> name@ == "completed"@,
    {
        match self {
            EventStatus::Draft => "draft",
            EventStatus::Published => "published",
            EventStatus::Cancelled => "cancelled",
            EventStatus::Completed => "completed",
        }
    }

    /// The status that a wire name denotes; `None` for any other text.
    pub fn from_wire_name(name: &str) -> (s: Option<EventStatus>)
        ensures
            s == EventStatus::parse_wire(name@),
            name@ == "draft"@ ==> s == Some(EventStatus::Draft),
            name@ == "published"@ ==> s == Some(EventStatus::Published),
            name@ == "cancelled"@ ==> s == Some(EventStatus::Cancelled),
            name@ == "completed"@ ==> s == Some(EventStatus::Completed),
            s is None <==> (name@ != "draft"@ && name@ != "published"@ && name@ != "cancelled"@ && name@ != "completed"@),
    {
        proof {
            law_event_status_wire_names();
        }
        if same_text(name, "draft") {
            Some(EventStatus::Draft)
        } else if same_text(name, "published") {
            Some(EventStatus::Published)
        } else if same_text(name, "cancelled") {
            Some(EventStatus::Cancelled)
        } else if same_text(name, "completed") {
            Some(EventStatus::Completed)
        } else {
            None
        }
    }
}

/// The wire name of each EventStatus variant is the variant's name in snake case,
/// and those are the only names that denote one.
pub proof fn law_event_status_wire_names()
    ensures
        EventStatus::Draft.wire() == "draft"@,
        EventStatus::Published.wire() == "published"@,
        EventStatus::Cancelled.wire() == "cancelled"@,
        EventStatus::Completed.wire() == "completed"@,
        EventStatus::parse_wire("draft"@) == Some(EventStatus::Draft),
        EventStatus::parse_wire("published"@) == Some(EventStatus::Published),
        EventStatus::parse_wire("cancelled"@) == Some(EventStatus::Cancelled),
        EventStatus::parse_wire("completed"@) == Some(EventStatus::Completed),
        forall|name: Seq<char>| EventStatus::parse_wire(name) is None <==> (name != "draft"@ && name != "published"@ && name != "cancelled"@ && name != "completed"@),
{
    reveal_strlit("draft");
    reveal_strlit("published");
    reveal_strlit("cancelled");
    reveal_strlit("completed");
    assert("draft"@.len() != "published"@.len());
    assert("draft"@.len() != "cancelled"@.len());
    assert("draft"@.len() != "completed"@.len());
    assert("published"@[0] != "cancelled"@[0]);
    assert("published"@[0] != "completed"@[0]);
    assert("cancelled"@[1] != "completed"@[1]);
}

/// Every status reads back from its wire name, and a wire name denotes only
/// the status it names.
pub proof fn law_event_status_wire_round_trip(s: EventStatus, name: Seq<char>)
    ensures
        EventStatus::parse_wire(s.wire()) == Some(s),
        EventStatus::parse_wire(name) == Some(s) ==> name == s.wire(),
{
    reveal_strlit("draft");
    reveal_strlit("published");
    reveal_strlit("cancelled");
    reveal_strlit("completed");
    assert("draft"@.len() != "published"@.len());
    assert("draft"@.len() != "cancelled"@.len());
    assert("draft"@.len() != "completed"@.len());
    assert("published"@[0] != "cancelled"@[0]);
    assert("published"@[0] != "completed"@[0]);
    assert("cancelled"@[1] != "completed"@[1]);
}

#[derive(Debug, Clone)]
pub struct Event {
    pub id: Uuid,
    pub title: String,
    pub summary: String,
    pub source: String,
    pub venue: String,
    pub starts_at: Timestamp,
    pub source_url: String,
    pub status: EventStatus,
    pub created_at: Timestamp,
    pub updated_at: Timestamp,
}

#[derive(Debug, Clone)]
pub struct CreateEvent {
    pub title: String,
    pub summary: String,
    pub source: String,
    pub venue: String,
    pub starts_at: Timestamp,
    pub source_url: String,
}

#[derive(Debug, Clone)]
pub struct EventEvent {
    pub event_id: Uuid,
    pub event_type: String,
    pub occurred_at: Timestamp,
    pub data: Event,
}

/// A rejected event request; the field holds the reason.
#[derive(Debug, Clone, PartialEq, Eq)]
pub struct ValidationError(pub String);

impl CreateEvent {
    pub open spec fn failure(&self) -> Option<Seq<char>> {
        if is_blank_text(self.title@) {
            Some("title must not be empty"@)
        } else if utf8_len(self.summary@) > 4000 {
            Some("summary exceeds 4000 bytes"@)
        } else if is_blank_text(self.source@) {
            Some("source must not be empty"@)
        } else if is_blank_text(self.venue@) {
            Some("venue must not be empty"@)
        } else if is_blank_text(self.source_url@) {
            Some("source_url must not be empty"@)
        } else {
            None
        }
    }

    /// The record that this request creates under `id` at `now`: a draft
    /// whose creation and update times are both `now`.
    pub open spec fn record(self, id: Uuid, now: Timestamp) -> Event {
        Event {
            id,
            title: self.title,
            summary: self.summary,
            source: self.source,
            venue: self.venue,
            starts_at: self.starts_at,
            source_url: self.source_url,
            status: EventStatus::Draft,
            created_at: now,
            updated_at: now,
        }
    }

    /// Accepts a request whose title, source, venue and source URL hold
    /// something besides white space and whose summary holds at most 4000 bytes.
    pub fn validate(&self) -> (r: Result<(), ValidationError>)
        ensures
            match r {
                Ok(_) => self.failure() is None,
                Err(e) => self.failure() == Some(e.0@),
            },
            r is Ok <==> {
                &&& !is_blank_text(self.title@)
                &&& utf8_len(self.summary@) <= 4000
                &&& !is_blank_text(self.source@)
                &&& !is_blank_text(self.venue@)
                &&& !is_blank_text(self.source_url@)
            },
            is_blank_text(self.title@)
                ==> (r matches Err(e) && e.0@ == "title must not be empty"@),
            !is_blank_text(self.title@) && utf8_len(self.summary@) > 4000
                ==> (r matches Err(e) && e.0@ == "summary exceeds 4000 bytes"@),
            !is_blank_text(self.title@) && utf8_len(self.summary@) <= 4000 && is_blank_text(self.source@)
                ==> (r matches Err(e) && e.0@ == "source must not be empty"@),
            !is_blank_text(self.title@) && utf8_len(self.summary@) <= 4000 && !is_blank_text(self.source@) && is_blank_text(self.venue@)
                ==> (r matches Err(e) && e.0@ == "venue must not be empty"@),
            !is_blank_text(self.title@) && utf8_len(self.summary@) <= 4000 && !is_blank_text(self.source@) && !is_blank_text(self.venue@) && is_blank_text(self.source_url@)
                ==> (r matches Err(e) && e.0@ == "source_url must not be empty"@),
    {
        if is_blank(self.title.as_str()) {
            return Err(ValidationError(String::from_str("title must not be empty")));
        }
        if byte_len(self.summary.as_str()) > 4000 {
            return Err(ValidationError(String::from_str("summary exceeds 4000 bytes")));
        }
        if is_blank(self.source.as_str()) {
            return Err(ValidationError(String::from_str("source must not be empty")));
        }
        if is_blank(self.venue.as_str()) {
            return Err(ValidationError(String::from_str("venue must not be empty")));
        }
        if is_blank(self.source_url.as_str()) {
            return Err(ValidationError(String::from_str("source_url must not be empty")));
        }
        Ok(())
    }

    /// Turns a valid request into the event record with identifier `id`,
    /// created at `now`; an invalid request gives the error `validate` gives.
    pub fn into_record(self, id: Uuid, now: Timestamp) -> (r: Result<Event, ValidationError>)
        ensures
            match r {
                Ok(event) => self.failure() is None && event == self.record(id, now),
                Err(e) => self.failure() == Some(e.0@),
            },
            r is Ok <==> {
                &&& !is_blank_text(self.title@)
                &&& utf8_len(self.summary@) <= 4000
                &&& !is_blank_text(self.source@)
                &&& !is_blank_text(self.venue@)
                &&& !is_blank_text(self.source_url@)
            },
            r matches Ok(event) ==> {
                &&& event.id == id
                &&& event.title == self.title
                &&& event.summary == self.summary
                &&& event.source == self.source
                &&& event.venue == self.venue
                &&& event.starts_at == self.starts_at
                &&& event.source_url == self.source_url
                &&& event.status == EventStatus::Draft
                &&& event.created_at == now
                &&& event.updated_at == now
            },
            is_blank_text(self.title@)
                ==> (r matches Err(e) && e.0@ == "title must not be empty"@),
            !is_blank_text(self.title@) && utf8_len(self.summary@) > 4000
                ==> (r matches Err(e) && e.0@ == "summary exceeds 4000 bytes"@),
            !is_blank_text(self.title@) && utf8_len(self.summary@) <= 4000 && is_blank_text(self.source@)
                ==> (r matches Err(e) && e.0@ == "source must not be empty"@),
            !is_blank_text(self.title@) && utf8_len(self.summary@) <= 4000 && !is_blank_text(self.source@) && is_blank_text(self.venue@)
                ==> (r matches Err(e) && e.0@ == "venue must not be empty"@),
            !is_blank_text(self.title@) && utf8_len(self.summary@) <= 4000 && !is_blank_text(self.source@) && !is_blank_text(self.venue@) && is_blank_text(self.source_url@)
                ==> (r matches Err(e) && e.0@ == "source_url must not be empty"@),
    {
        match self.validate() {
            Ok(()) => {},
            Err(e) => return Err(e),
        }
        Ok(Event {
            id,
            title: self.title,
            summary: self.summary,
            source: self.source,
            venue: self.venue,
            starts_at: self.starts_at,
            source_url: self.source_url,
            status: EventStatus::default(),
            created_at: now,
            updated_at: now,
        })
    }
}

/// An event request is accepted exactly when its title, source, venue and
/// source URL hold something besides white space and its summary holds at
/// most 4000 bytes; the first rule broken, in that order, gives the reason.
pub proof fn law_create_event_rule(req: CreateEvent)
    ensures
        req.failure() is None <==> {
            &&& !is_blank_text(req.title@)
            &&& utf8_len(req.summary@) <= 4000
            &&& !is_blank_text(req.source@)
            &&& !is_blank_text(req.venue@)
            &&& !is_blank_text(req.source_url@)
        },
        is_blank_text(req.title@)
            ==> req.failure() == Some("title must not be empty"@),
        !is_blank_text(req.title@) && utf8_len(req.summary@) > 4000
            ==> req.failure() == Some("summary exceeds 4000 bytes"@),
        !is_blank_text(req.title@) && utf8_len(req.summary@) <= 4000 && is_blank_text(req.source@)
            ==> req.failure() == Some("source must not be empty"@),
        !is_blank_text(req.title@) && utf8_len(req.summary@) <= 4000 && !is_blank_text(req.source@) && is_blank_text(req.venue@)
            ==> req.failure() == Some("venue must not be empty"@),
        !is_blank_text(req.title@) && utf8_len(req.summary@) <= 4000 && !is_blank_text(req.source@) && !is_blank_text(req.venue@) && is_blank_text(req.source_url@)
            ==> req.failure() == Some("source_url must not be empty"@),
{
}

/// The record made from a request copies each of the request's fields into
/// the field of the same name, takes the given identifier, starts as a draft,
/// and is created and last updated at the given instant.
pub proof fn law_record_copies_request(req: CreateEvent, id: Uuid, now: Timestamp)
    ensures
        req.record(id, now).id == id,
        req.record(id, now).title == req.title,
        req.record(id, now).summary == req.summary,
        req.record(id, now).source == req.source,
        req.record(id, now).venue == req.venue,
        req.record(id, now).starts_at == req.starts_at,
        req.record(id, now).source_url == req.source_url,
        req.record(id, now).status == EventStatus::Draft,
        req.record(id, now).created_at == now,
        req.record(id, now).updated_at == now,
{
}

} // verus!
