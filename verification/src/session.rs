//! The data model: markers, the session that is being recorded, and the
//! record of a completed session.

use crate::clock::{Instant, Timestamp};
use uuid::Uuid;
use vstd::prelude::*;

verus! {

/// The text of an optional string.
pub open spec fn optional_text(s: Option<String>) -> Option<Seq<char>> {
    match s {
        Some(t) => Some(t@),
        None => None,
    }
}

/// Copies an optional string.
pub fn clone_optional_text(s: &Option<String>) -> (res: Option<String>)
    ensures
        res == *s,
{
    match s {
        Some(text) => Some(text.clone()),
        None => None,
    }
}

/// A lower-case hexadecimal digit.
pub open spec fn is_lower_hex(c: char) -> bool {
    ('0' <= c && c <= '9') || ('a' <= c && c <= 'f')
}

/// The hyphenated form of a UUID: 36 characters, hyphens after the 8th, 12th,
/// 16th and 20th digit, lower-case hexadecimal digits elsewhere.
pub open spec fn is_hyphenated_uuid(s: Seq<char>) -> bool {
    &&& s.len() == 36
    &&& forall|i: int|
        0 <= i < 36 ==> if i == 8 || i == 13 || i == 18 || i == 23 {
            s[i] == '-'
        } else {
            is_lower_hex(#[trigger] s[i])
        }
}

/// A fresh identifier for a session or a marker: draws a random UUID with
/// `Uuid::new_v4` and prints it with the `Display` of `Uuid`.
///
/// Trusted: the text is the hyphenated lower-case form. Which identifier comes
/// is left open; `new_v4` gives up where the system has no random bytes to
/// offer.
#[verifier::external_body]
pub(crate) fn fresh_id() -> (res: String)
    ensures
        is_hyphenated_uuid(res@),
{
    Uuid::new_v4().to_string()
}

/// A marker as plain values.
pub struct MarkerView {
    pub id: Seq<char>,
    pub timestamp: Instant,
    pub label: Seq<char>,
    pub notes: Option<Seq<char>>,
}

impl MarkerView {
    /// The marker that is made at `at` under `label`: it has no notes yet.
    pub open spec fn made(id: Seq<char>, at: Instant, label: Seq<char>) -> MarkerView {
        MarkerView { id, timestamp: at, label, notes: None }
    }
}

/// A timestamped annotation, made while a session runs.
#[derive(Debug, PartialEq, Eq)]
pub struct Marker {
    pub id: String,
    pub timestamp: Timestamp,
    pub label: String,
    pub notes: Option<String>,
}

impl View for Marker {
    type V = MarkerView;

    open spec fn view(&self) -> MarkerView {
        MarkerView {
            id: self.id@,
            timestamp: self.timestamp@,
            label: self.label@,
            notes: optional_text(self.notes),
        }
    }
}

impl Clone for Marker {
    fn clone(&self) -> (res: Marker)
        ensures
            res == *self,
    {
        Marker {
            id: self.id.clone(),
            timestamp: self.timestamp,
            label: self.label.clone(),
            notes: clone_optional_text(&self.notes),
        }
    }
}

/// The markers of a sequence as plain values, in the same order.
pub open spec fn marker_views(markers: Seq<Marker>) -> Seq<MarkerView> {
    markers.map_values(|m: Marker| m@)
}

/// Copies a list of markers.
pub fn clone_markers(markers: &Vec<Marker>) -> (res: Vec<Marker>)
    ensures
        res@ == markers@,
{
    let mut out: Vec<Marker> = Vec::new();
    let mut i: usize = 0;
    while i < markers.len()
        invariant
            i <= markers.len(),
            out@ == markers@.take(i as int),
        decreases markers.len() - i,
    {
        out.push(markers[i].clone());
        i += 1;
        assert(out@ =~= markers@.take(i as int));
    }
    assert(markers@.take(markers.len() as int) =~= markers@);
    out
}

/// The record of a completed session as plain values.
pub struct SessionView {
    pub id: Seq<char>,
    pub start_time: Instant,
    pub end_time: Instant,
    pub markers: Seq<MarkerView>,
    pub name: Option<Seq<char>>,
}

impl SessionView {
    /// The session did not end before it started.
    pub open spec fn ends_after_start(self) -> bool {
        self.start_time.at_or_before(self.end_time)
    }
}

/// The record of a completed session.
#[derive(Debug, PartialEq, Eq)]
pub struct Session {
    pub id: String,
    pub start_time: Timestamp,
    pub end_time: Timestamp,
    pub markers: Vec<Marker>,
    pub name: Option<String>,
}

impl View for Session {
    type V = SessionView;

    open spec fn view(&self) -> SessionView {
        SessionView {
            id: self.id@,
            start_time: self.start_time@,
            end_time: self.end_time@,
            markers: marker_views(self.markers@),
            name: optional_text(self.name),
        }
    }
}

impl Clone for Session {
    fn clone(&self) -> (res: Session)
        ensures
            res@ == self@,
    {
        Session {
            id: self.id.clone(),
            start_time: self.start_time,
            end_time: self.end_time,
            markers: clone_markers(&self.markers),
            name: clone_optional_text(&self.name),
        }
    }
}

/// An active session as plain values.
pub struct ActiveSessionView {
    pub id: Seq<char>,
    pub start_time: Instant,
    pub markers: Seq<MarkerView>,
}

impl ActiveSessionView {
    /// The session that starts at `at` under `id`: it has no markers yet.
    pub open spec fn opened(id: Seq<char>, at: Instant) -> ActiveSessionView {
        ActiveSessionView { id, start_time: at, markers: Seq::empty() }
    }

    /// The session with `marker` added behind the markers it has.
    pub open spec fn with_marker(self, marker: MarkerView) -> ActiveSessionView {
        ActiveSessionView { markers: self.markers.push(marker), ..self }
    }

    /// The record of the session once it is ended at `end`: the same
    /// identifier, start and markers, and no name. The record ends at `end`,
    /// or at the session's start where `end` is earlier, so that no record
    /// ends before it started.
    pub open spec fn completed(self, end: Instant) -> SessionView {
        SessionView {
            id: self.id,
            start_time: self.start_time,
            end_time: self.start_time.later_of(end),
            markers: self.markers,
            name: None,
        }
    }
}

/// The session that is being recorded.
#[derive(Debug, PartialEq, Eq)]
pub struct ActiveSession {
    pub id: String,
    pub start_time: Timestamp,
    pub markers: Vec<Marker>,
}

impl View for ActiveSession {
    type V = ActiveSessionView;

    open spec fn view(&self) -> ActiveSessionView {
        ActiveSessionView {
            id: self.id@,
            start_time: self.start_time@,
            markers: marker_views(self.markers@),
        }
    }
}

impl Clone for ActiveSession {
    fn clone(&self) -> (res: ActiveSession)
        ensures
            res@ == self@,
    {
        ActiveSession {
            id: self.id.clone(),
            start_time: self.start_time,
            markers: clone_markers(&self.markers),
        }
    }
}

impl ActiveSession {
    /// A session that starts now, under a fresh identifier.
    pub fn new() -> (res: ActiveSession)
        ensures
            res@ == ActiveSessionView::opened(res@.id, res@.start_time),
            is_hyphenated_uuid(res@.id),
            res@.start_time.valid(),
    {
        ActiveSession::started(fresh_id(), Timestamp::now())
    }

    /// The session that starts at `at` under `id`.
    pub fn started(id: String, at: Timestamp) -> (res: ActiveSession)
        ensures
            res@ == ActiveSessionView::opened(id@, at@),
    {
        let res = ActiveSession { id, start_time: at, markers: Vec::new() };
        assert(res@.markers =~= Seq::empty());
        res
    }

    /// Adds a marker made now, under a fresh identifier, and hands it out.
    pub fn add_marker(&mut self, label: &str) -> (res: &Marker)
        ensures
            res@ == MarkerView::made(res@.id, res@.timestamp, label@),
            is_hyphenated_uuid(res@.id),
            res@.timestamp.valid(),
            final(self)@ == old(self)@.with_marker(res@),
    {
        self.add_marker_at(fresh_id(), Timestamp::now(), label)
    }

    /// Adds the marker made at `at` under `id` and `label`, and hands it out.
    pub fn add_marker_at(&mut self, id: String, at: Timestamp, label: &str) -> (res: &Marker)
        ensures
            res@ == MarkerView::made(id@, at@, label@),
            final(self)@ == old(self)@.with_marker(res@),
    {
        let marker = Marker { id, timestamp: at, label: label.to_owned(), notes: None };
        self.markers.push(marker);
        let last = self.markers.len() - 1;
        assert(self@.markers =~= old(self)@.markers.push(self.markers@[last as int]@));
        &self.markers[last]
    }

    /// The record of the session, ended now. Where the clock shows an instant
    /// before the session's start, the record ends at its start.
    pub fn to_session(&self) -> (res: Session)
        ensures
            res@ == self@.completed(res@.end_time),
            res@.ends_after_start(),
            res@.end_time.valid(),
    {
        self.to_session_at(Timestamp::now())
    }

    /// The record of the session, ended at `end`, or at the session's start
    /// where `end` is earlier: the record never ends before it started.
    pub fn to_session_at(&self, end: Timestamp) -> (res: Session)
        ensures
            res@ == self@.completed(end@),
            res@.ends_after_start(),
            res@.end_time.valid(),
    {
        Session {
            id: self.id.clone(),
            start_time: self.start_time,
            end_time: self.start_time.later_of(&end),
            markers: clone_markers(&self.markers),
            name: None,
        }
    }
}

} // verus!
