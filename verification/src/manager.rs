//! The session manager: the one slot that holds the session being recorded,
//! and the operations that fill it, add to it and empty it.

use crate::clock::{Instant, Timestamp};
use crate::error::SessionError;
use crate::session::{
    fresh_id, is_hyphenated_uuid, ActiveSession, ActiveSessionView, Marker, MarkerView, Session,
    SessionView,
};
use crate::storage::{
    listed_records, lookup_answer, save_answer, FileRead, FileWrite, Storage, StoredFile,
};
use vstd::prelude::*;

verus! {

/// The slot as plain values.
pub open spec fn slot_view(slot: Option<ActiveSession>) -> Option<ActiveSessionView> {
    match slot {
        Some(active) => Some(active@),
        None => None,
    }
}

/// One request to the session manager, with the identifier and the instant
/// that it brings along.
pub enum Operation {
    Start { id: Seq<char>, at: Instant },
    AddMarker { id: Seq<char>, at: Instant, label: Seq<char> },
    Stop { at: Instant },
}

/// Whether the operation is carried out: a start only while the slot is
/// empty, a marker or a stop only while it is filled.
pub open spec fn accepted(slot: Option<ActiveSessionView>, op: Operation) -> bool {
    match op {
        Operation::Start { .. } => slot is None,
        Operation::AddMarker { .. } => slot is Some,
        Operation::Stop { .. } => slot is Some,
    }
}

/// The slot after the operation. An operation that is not accepted leaves it
/// as it was.
pub open spec fn slot_after(slot: Option<ActiveSessionView>, op: Operation) -> Option<
    ActiveSessionView,
> {
    match (op, slot) {
        (Operation::Start { id, at }, None) => Some(ActiveSessionView::opened(id, at)),
        (Operation::AddMarker { id, at, label }, Some(active)) => Some(
            active.with_marker(MarkerView::made(id, at, label)),
        ),
        (Operation::Stop { .. }, Some(_)) => None,
        _ => slot,
    }
}

/// What a start answers: the new session's identifier, or that a session is
/// already being recorded.
pub open spec fn start_answer(slot: Option<ActiveSessionView>, id: Seq<char>) -> Result<
    Seq<char>,
    SessionError,
> {
    if slot is Some {
        Err(SessionError::AlreadyActive)
    } else {
        Ok(id)
    }
}

/// What adding a marker answers: the new marker, or that no session is being
/// recorded.
pub open spec fn marker_answer(
    slot: Option<ActiveSessionView>,
    id: Seq<char>,
    at: Instant,
    label: Seq<char>,
) -> Result<MarkerView, SessionError> {
    if slot is Some {
        Ok(MarkerView::made(id, at, label))
    } else {
        Err(SessionError::NoActiveSession)
    }
}

/// What a stop answers: the record of the session, ended at `at` or, where
/// `at` is earlier than its start, at its start; or that no session is being
/// recorded.
pub open spec fn stop_answer(slot: Option<ActiveSessionView>, at: Instant) -> Result<
    SessionView,
    SessionError,
> {
    match slot {
        Some(active) => Ok(active.completed(at)),
        None => Err(SessionError::NoActiveSession),
    }
}

/// Starts a session at `at` under `id`, unless one is being recorded.
pub fn start_session_at(
    active_session: &mut Option<ActiveSession>,
    id: String,
    at: Timestamp,
) -> (res: Result<String, SessionError>)
    ensures
        slot_view(*final(active_session)) == slot_after(
            slot_view(*old(active_session)),
            Operation::Start { id: id@, at: at@ },
        ),
        match start_answer(slot_view(*old(active_session)), id@) {
            Ok(text) => res matches Ok(given) && given@ == text,
            Err(error) => res == Err::<String, SessionError>(error),
        },
{
    if active_session.is_some() {
        return Err(SessionError::AlreadyActive);
    }
    let new_session = ActiveSession::started(id, at);
    let given = new_session.id.clone();
    *active_session = Some(new_session);
    Ok(given)
}

/// Starts a session now, under a fresh identifier, unless one is being
/// recorded.
pub fn start_session(active_session: &mut Option<ActiveSession>) -> (res: Result<
    String,
    SessionError,
>)
    ensures
        slot_view(*old(active_session)) is Some ==> ({
            &&& res == Err::<String, SessionError>(SessionError::AlreadyActive)
            &&& slot_view(*final(active_session)) == slot_view(*old(active_session))
        }),
        slot_view(*old(active_session)) is None ==> ({
            &&& res matches Ok(given)
            &&& is_hyphenated_uuid(given@)
            &&& slot_view(*final(active_session)) matches Some(active)
            &&& active.start_time.valid()
            &&& active == ActiveSessionView::opened(given@, active.start_time)
        }),
{
    if active_session.is_some() {
        return Err(SessionError::AlreadyActive);
    }
    let id = fresh_id();
    let at = Timestamp::now();
    start_session_at(active_session, id, at)
}

/// Adds the marker made at `at` under `id` and `label` to the session that
/// is being recorded, and answers with a copy of it.
pub fn add_marker_at(
    label: String,
    active_session: &mut Option<ActiveSession>,
    id: String,
    at: Timestamp,
) -> (res: Result<Marker, SessionError>)
    ensures
        slot_view(*final(active_session)) == slot_after(
            slot_view(*old(active_session)),
            Operation::AddMarker { id: id@, at: at@, label: label@ },
        ),
        match marker_answer(slot_view(*old(active_session)), id@, at@, label@) {
            Ok(made) => res matches Ok(marker) && marker@ == made,
            Err(error) => res == Err::<Marker, SessionError>(error),
        },
{
    match active_session {
        Some(active) => {
            let marker = active.add_marker_at(id, at, label.as_str());
            Ok(marker.clone())
        },
        None => Err(SessionError::NoActiveSession),
    }
}

/// Adds a marker made now, under a fresh identifier, to the session that is
/// being recorded, and answers with a copy of it.
pub fn add_marker(label: String, active_session: &mut Option<ActiveSession>) -> (res: Result<
    Marker,
    SessionError,
>)
    ensures
        slot_view(*old(active_session)) is None ==> ({
            &&& res == Err::<Marker, SessionError>(SessionError::NoActiveSession)
            &&& slot_view(*final(active_session)) is None
        }),
        slot_view(*old(active_session)) matches Some(active) ==> ({
            &&& res matches Ok(marker)
            &&& is_hyphenated_uuid(marker@.id)
            &&& marker@.timestamp.valid()
            &&& marker@ == MarkerView::made(marker@.id, marker@.timestamp, label@)
            &&& slot_view(*final(active_session)) == Some(active.with_marker(marker@))
        }),
{
    if active_session.is_none() {
        return Err(SessionError::NoActiveSession);
    }
    let id = fresh_id();
    let at = Timestamp::now();
    add_marker_at(label, active_session, id, at)
}

/// Ends the session that is being recorded at `at`: the slot is emptied, and
/// the answer is the record of the session. The record ends at `at`, or at
/// the session's start where `at` is earlier: it never ends before it
/// started.
pub fn stop_session_at(active_session: &mut Option<ActiveSession>, at: Timestamp) -> (res: Result<
    Session,
    SessionError,
>)
    ensures
        slot_view(*final(active_session)) == slot_after(
            slot_view(*old(active_session)),
            Operation::Stop { at: at@ },
        ),
        slot_view(*final(active_session)) is None,
        match stop_answer(slot_view(*old(active_session)), at@) {
            Ok(record) => res matches Ok(session) && session@ == record,
            Err(error) => res == Err::<Session, SessionError>(error),
        },
        res matches Ok(session) ==> session@.ends_after_start() && session@.end_time.valid(),
{
    match active_session.take() {
        Some(active) => Ok(active.to_session_at(at)),
        None => Err(SessionError::NoActiveSession),
    }
}

/// Ends the session that is being recorded now: the slot is emptied, and the
/// answer is the record of the session, which is still to be saved. The
/// record does not end before it started, whatever the clock shows.
pub fn stop_session(active_session: &mut Option<ActiveSession>) -> (res: Result<
    Session,
    SessionError,
>)
    ensures
        slot_view(*final(active_session)) is None,
        slot_view(*old(active_session)) is None ==> res == Err::<Session, SessionError>(
            SessionError::NoActiveSession,
        ),
        slot_view(*old(active_session)) matches Some(active) ==> ({
            &&& res matches Ok(session)
            &&& session@.end_time.valid()
            &&& session@.ends_after_start()
            &&& session@ == active.completed(session@.end_time)
        }),
{
    if active_session.is_none() {
        return Err(SessionError::NoActiveSession);
    }
    let at = Timestamp::now();
    stop_session_at(active_session, at)
}

/// What a stop answers in the end, once the record has been handed to the
/// store: the record where it was saved, else the store's failure. The slot
/// was emptied before and stays so.
pub fn stop_session_saved(completed: Session, written: FileWrite) -> (res: Result<
    Session,
    SessionError,
>)
    ensures
        match save_answer(written) {
            Ok(_) => res == Ok::<Session, SessionError>(completed),
            Err(error) => res == Err::<Session, SessionError>(error),
        },
{
    match Storage::save_session(written) {
        Ok(_) => Ok(completed),
        Err(error) => Err(error),
    }
}

/// A copy of the session that is being recorded, if there is one.
pub fn get_active_session(active_session: &Option<ActiveSession>) -> (res: Option<ActiveSession>)
    ensures
        slot_view(res) == slot_view(*active_session),
{
    match active_session {
        Some(active) => Some(active.clone()),
        None => None,
    }
}

/// What looking up a record by its identifier answers, once its file has
/// been read.
pub fn get_session_by_id(read: FileRead) -> (res: Result<Option<Session>, SessionError>)
    ensures
        res == lookup_answer(read),
{
    Storage::get_session(read)
}

/// How many records at the front of `sorted` did not start before `session`.
pub open spec fn not_earlier_starts(sorted: Seq<Session>, session: Session) -> nat
    decreases sorted.len(),
{
    if sorted.len() > 0 && !sorted[0].start_time@.before(session.start_time@) {
        1 + not_earlier_starts(sorted.drop_first(), session)
    } else {
        0
    }
}

/// The records from the latest start to the earliest. Each record stands
/// behind those that started later or at the same instant and came before it,
/// so records that started at the same instant keep their order.
pub open spec fn newest_first(sessions: Seq<Session>) -> Seq<Session>
    decreases sessions.len(),
{
    if sessions.len() == 0 {
        Seq::empty()
    } else {
        let rest = newest_first(sessions.drop_last());
        rest.insert(not_earlier_starts(rest, sessions.last()) as int, sessions.last())
    }
}

/// No record of `sessions` stands before one that started later.
pub open spec fn is_newest_first(sessions: Seq<Session>) -> bool {
    forall|i: int, j: int|
        0 <= i < j < sessions.len() ==> !(#[trigger] sessions[i]).start_time@.before(
            (#[trigger] sessions[j]).start_time@,
        )
}

/// The count of `not_earlier_starts` is a position in `sorted`; the records
/// before it did not start before `session`, and the record at it, if there is
/// one, did.
pub proof fn lemma_not_earlier_starts(sorted: Seq<Session>, session: Session)
    ensures
        not_earlier_starts(sorted, session) <= sorted.len(),
        forall|i: int|
            0 <= i < not_earlier_starts(sorted, session) ==> !(#[trigger] sorted[i])
                .start_time@.before(session.start_time@),
        not_earlier_starts(sorted, session) < sorted.len() ==> sorted[not_earlier_starts(
            sorted,
            session,
        ) as int].start_time@.before(session.start_time@),
    decreases sorted.len(),
{
    if sorted.len() > 0 && !sorted[0].start_time@.before(session.start_time@) {
        let tail = sorted.drop_first();
        lemma_not_earlier_starts(tail, session);
        let n = not_earlier_starts(tail, session) as int;
        assert forall|i: int| 0 <= i < n + 1 implies !(#[trigger] sorted[i]).start_time@.before(
            session.start_time@,
        ) by {
            if i > 0 {
                assert(sorted[i] == tail[i - 1]);
            }
        }
        if n + 1 < sorted.len() {
            assert(sorted[n + 1] == tail[n]);
        }
    }
}

fn insert_newest_first(sorted: &mut Vec<Session>, session: Session)
    ensures
        final(sorted)@ == old(sorted)@.insert(
            not_earlier_starts(old(sorted)@, session) as int,
            session,
        ),
{
    let mut at: usize = 0;
    assert(sorted@.skip(0) =~= sorted@);
    while at < sorted.len() && !sorted[at].start_time.is_before(&session.start_time)
        invariant
            at <= sorted.len(),
            sorted@ == old(sorted)@,
            not_earlier_starts(sorted@, session) == at + not_earlier_starts(
                sorted@.skip(at as int),
                session,
            ),
        decreases sorted.len() - at,
    {
        assert(sorted@.skip(at as int).drop_first() =~= sorted@.skip(at + 1));
        at += 1;
    }
    sorted.insert(at, session);
}

/// Orders records from the latest start to the earliest.
pub fn sort_newest_first(sessions: Vec<Session>) -> (res: Vec<Session>)
    ensures
        res@ == newest_first(sessions@),
{
    let mut sorted: Vec<Session> = Vec::new();
    let ghost all = sessions@;
    assert(all.take(0) =~= Seq::empty());
    for session in it: sessions.into_iter()
        invariant
            it.seq() == all,
            sorted@ == newest_first(all.take(it.index() as int)),
    {
        proof {
            let next = all.take(it.index() + 1);
            assert(next.drop_last() =~= all.take(it.index() as int));
            assert(next.last() == session);
        }
        insert_newest_first(&mut sorted, session);
    }
    proof {
        assert(all.take(all.len() as int) =~= all);
    }
    sorted
}

/// What listing the records answers, once the data directory and its files
/// have been read: the records of the store from the latest start to the
/// earliest, or the failure to read the directory.
pub fn get_sessions(entries: Result<Vec<StoredFile>, String>) -> (res: Result<
    Vec<Session>,
    SessionError,
>)
    ensures
        entries matches Ok(files) ==> res matches Ok(found) && found@ == newest_first(
            listed_records(files@),
        ),
        entries matches Err(detail) ==> res == Err::<Vec<Session>, SessionError>(
            SessionError::StoreReadError(detail),
        ),
{
    match Storage::list_sessions(entries) {
        Ok(found) => Ok(sort_newest_first(found)),
        Err(error) => Err(error),
    }
}

} // verus!
