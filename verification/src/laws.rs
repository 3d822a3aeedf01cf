//! What holds of the session manager and of a listing, whatever the
//! operations and the records are.

use crate::clock::Instant;
use crate::error::SessionError;
use crate::manager::{
    accepted, is_newest_first, lemma_not_earlier_starts, marker_answer, newest_first,
    not_earlier_starts, slot_after, start_answer, stop_answer, Operation,
};
use crate::session::{
    is_hyphenated_uuid, is_lower_hex, ActiveSessionView, MarkerView, Session, SessionView,
};
use crate::storage::{
    lemma_saved_file_is_listed, listed_record, listed_records, session_file_name, FileRead,
    StoredFile,
};
use vstd::prelude::*;

verus! {

/// The slot after a sequence of operations, carried out one after another.
pub open spec fn slot_after_all(slot: Option<ActiveSessionView>, ops: Seq<Operation>) -> Option<
    ActiveSessionView,
>
    decreases ops.len(),
{
    if ops.len() == 0 {
        slot
    } else {
        slot_after(slot_after_all(slot, ops.drop_last()), ops.last())
    }
}

/// How many sessions the slot holds.
pub open spec fn sessions_in(slot: Option<ActiveSessionView>) -> nat {
    if slot is Some {
        1
    } else {
        0
    }
}

/// How many starts of the sequence were accepted.
pub open spec fn starts_accepted(slot: Option<ActiveSessionView>, ops: Seq<Operation>) -> nat
    decreases ops.len(),
{
    if ops.len() == 0 {
        0
    } else {
        let before = slot_after_all(slot, ops.drop_last());
        starts_accepted(slot, ops.drop_last()) + if ops.last() is Start && accepted(
            before,
            ops.last(),
        ) {
            1nat
        } else {
            0nat
        }
    }
}

/// How many stops of the sequence were accepted.
pub open spec fn stops_accepted(slot: Option<ActiveSessionView>, ops: Seq<Operation>) -> nat
    decreases ops.len(),
{
    if ops.len() == 0 {
        0
    } else {
        let before = slot_after_all(slot, ops.drop_last());
        stops_accepted(slot, ops.drop_last()) + if ops.last() is Stop && accepted(
            before,
            ops.last(),
        ) {
            1nat
        } else {
            0nat
        }
    }
}

/// After any sequence of operations, the sessions that were started and not
/// yet stopped are those in the slot, and there is at most one of them.
pub proof fn lemma_at_most_one_active(slot: Option<ActiveSessionView>, ops: Seq<Operation>)
    ensures
        sessions_in(slot) + starts_accepted(slot, ops) - stops_accepted(slot, ops) == sessions_in(
            slot_after_all(slot, ops),
        ),
        sessions_in(slot_after_all(slot, ops)) <= 1,
    decreases ops.len(),
{
    if ops.len() > 0 {
        lemma_at_most_one_active(slot, ops.drop_last());
    }
}

/// A start that follows a start at once is refused, whatever came before and
/// whether or not the first one was accepted.
pub proof fn lemma_second_start_refused(
    slot: Option<ActiveSessionView>,
    first_id: Seq<char>,
    first_at: Instant,
    second_id: Seq<char>,
    second_at: Instant,
)
    ensures
        start_answer(
            slot_after(slot, Operation::Start { id: first_id, at: first_at }),
            second_id,
        ) == Err::<Seq<char>, SessionError>(SessionError::AlreadyActive),
        slot_after(
            slot_after(slot, Operation::Start { id: first_id, at: first_at }),
            Operation::Start { id: second_id, at: second_at },
        ) == slot_after(slot, Operation::Start { id: first_id, at: first_at }),
{
}

/// No operation of the sequence is a start.
pub open spec fn no_start_in(ops: Seq<Operation>) -> bool {
    forall|i: int| 0 <= i < ops.len() ==> !((#[trigger] ops[i]) is Start)
}

/// Without a start, the slot stays empty: a stop then finds no session, and
/// so does a marker.
pub proof fn lemma_nothing_active_without_start(
    ops: Seq<Operation>,
    at: Instant,
    id: Seq<char>,
    label: Seq<char>,
)
    requires
        no_start_in(ops),
    ensures
        slot_after_all(None, ops) is None,
        stop_answer(slot_after_all(None, ops), at) is Err,
        stop_answer(slot_after_all(None, ops), at)->Err_0 == SessionError::NoActiveSession,
        marker_answer(slot_after_all(None, ops), id, at, label) is Err,
        marker_answer(slot_after_all(None, ops), id, at, label)->Err_0
            == SessionError::NoActiveSession,
    decreases ops.len(),
{
    if ops.len() > 0 {
        assert(no_start_in(ops.drop_last())) by {
            assert forall|i: int| 0 <= i < ops.drop_last().len() implies !((
            #[trigger] ops.drop_last()[i]) is Start) by {
                assert(ops.drop_last()[i] == ops[i]);
            }
        }
        lemma_nothing_active_without_start(ops.drop_last(), at, id, label);
        assert(!(ops[ops.len() - 1] is Start));
    }
}

/// The marker that was added last is the last marker of the session that is
/// being recorded, behind the markers that were there before.
pub proof fn lemma_added_marker_is_last(
    active: ActiveSessionView,
    id: Seq<char>,
    at: Instant,
    label: Seq<char>,
)
    ensures
        marker_answer(Some(active), id, at, label) is Ok,
        slot_after(Some(active), Operation::AddMarker { id, at, label }) is Some,
        slot_after(Some(active), Operation::AddMarker { id, at, label })->0.markers.last()
            == marker_answer(Some(active), id, at, label)->Ok_0,
        slot_after(Some(active), Operation::AddMarker { id, at, label })->0.markers.drop_last()
            == active.markers,
        slot_after(Some(active), Operation::AddMarker { id, at, label })->0.id == active.id,
        slot_after(Some(active), Operation::AddMarker { id, at, label })->0.start_time
            == active.start_time,
{
    let after = slot_after(Some(active), Operation::AddMarker { id, at, label })->0;
    assert(after.markers.drop_last() =~= active.markers);
}

/// The record of a stopped session has the identifier, the start and the
/// markers of the session as it was. It ends at the instant of the stop, or
/// at its start where the stop comes before it: whenever the stop is asked
/// for, the record does not end before it started.
pub proof fn lemma_record_keeps_session(active: ActiveSessionView, at: Instant)
    ensures
        stop_answer(Some(active), at) is Ok,
        stop_answer(Some(active), at)->Ok_0.id == active.id,
        stop_answer(Some(active), at)->Ok_0.start_time == active.start_time,
        stop_answer(Some(active), at)->Ok_0.markers == active.markers,
        stop_answer(Some(active), at)->Ok_0.end_time == active.start_time.later_of(at),
        active.start_time.at_or_before(at) ==> stop_answer(Some(active), at)->Ok_0.end_time == at,
        stop_answer(Some(active), at)->Ok_0.ends_after_start(),
{
}

/// Every operation of the sequence adds a marker.
pub open spec fn only_markers_in(ops: Seq<Operation>) -> bool {
    forall|i: int| 0 <= i < ops.len() ==> (#[trigger] ops[i]) is AddMarker
}

/// The marker that an operation adds.
pub open spec fn marker_of(op: Operation) -> MarkerView {
    match op {
        Operation::AddMarker { id, at, label } => MarkerView::made(id, at, label),
        _ => arbitrary(),
    }
}

/// From start to stop a session keeps its identifier and its start, and
/// gathers the markers in the order in which they were added: the record of
/// a session that was started, given markers and then stopped holds exactly
/// these markers, one for each request and in the order of the requests.
pub proof fn lemma_record_holds_markers_in_order(
    id: Seq<char>,
    at: Instant,
    ops: Seq<Operation>,
    end: Instant,
)
    requires
        only_markers_in(ops),
    ensures
        slot_after_all(Some(ActiveSessionView::opened(id, at)), ops) is Some,
        stop_answer(slot_after_all(Some(ActiveSessionView::opened(id, at)), ops), end) is Ok,
        stop_answer(slot_after_all(Some(ActiveSessionView::opened(id, at)), ops), end)->Ok_0
            == (SessionView {
            id,
            start_time: at,
            end_time: at.later_of(end),
            markers: ops.map_values(|op: Operation| marker_of(op)),
            name: None,
        }),
    decreases ops.len(),
{
    let opened = Some(ActiveSessionView::opened(id, at));
    if ops.len() == 0 {
        assert(ops.map_values(|op: Operation| marker_of(op)) =~= Seq::<MarkerView>::empty());
    } else {
        let front = ops.drop_last();
        assert(only_markers_in(front)) by {
            assert forall|i: int| 0 <= i < front.len() implies (
            #[trigger] front[i]) is AddMarker by {
                assert(front[i] == ops[i]);
            }
        }
        lemma_record_holds_markers_in_order(id, at, front, end);
        assert(ops[ops.len() - 1] is AddMarker);
        assert(ops.map_values(|op: Operation| marker_of(op)) =~= front.map_values(
            |op: Operation| marker_of(op),
        ).push(marker_of(ops.last())));
    }
}

/// Two markers that two callers add to one session are both kept, whichever
/// caller comes first: each takes its turn on the slot, and the second adds
/// to what the first has left.
pub proof fn lemma_markers_of_two_callers_are_both_kept(
    active: ActiveSessionView,
    first: MarkerView,
    second: MarkerView,
)
    ensures
        ({
            let one_way = slot_after(
                slot_after(
                    Some(active),
                    Operation::AddMarker { id: first.id, at: first.timestamp, label: first.label },
                ),
                Operation::AddMarker { id: second.id, at: second.timestamp, label: second.label },
            );
            let other_way = slot_after(
                slot_after(
                    Some(active),
                    Operation::AddMarker {
                        id: second.id,
                        at: second.timestamp,
                        label: second.label,
                    },
                ),
                Operation::AddMarker { id: first.id, at: first.timestamp, label: first.label },
            );
            let made_first = MarkerView::made(first.id, first.timestamp, first.label);
            let made_second = MarkerView::made(second.id, second.timestamp, second.label);
            &&& one_way is Some
            &&& other_way is Some
            &&& one_way->0.markers == active.markers + seq![made_first, made_second]
            &&& other_way->0.markers == active.markers + seq![made_second, made_first]
        }),
{
    let made_first = MarkerView::made(first.id, first.timestamp, first.label);
    let made_second = MarkerView::made(second.id, second.timestamp, second.label);
    assert(active.markers.push(made_first).push(made_second) =~= active.markers + seq![
        made_first,
        made_second,
    ]);
    assert(active.markers.push(made_second).push(made_first) =~= active.markers + seq![
        made_second,
        made_first,
    ]);
}

/// A listing is ordered: no record stands before one that started later.
pub proof fn lemma_newest_first_is_ordered(sessions: Seq<Session>)
    ensures
        is_newest_first(newest_first(sessions)),
        newest_first(sessions).len() == sessions.len(),
    decreases sessions.len(),
{
    if sessions.len() > 0 {
        let rest = newest_first(sessions.drop_last());
        let x = sessions.last();
        let p = not_earlier_starts(rest, x) as int;
        lemma_newest_first_is_ordered(sessions.drop_last());
        lemma_not_earlier_starts(rest, x);
        let out = rest.insert(p, x);
        assert forall|i: int, j: int| 0 <= i < j < out.len() implies !(#[trigger] out[i])
            .start_time@.before((#[trigger] out[j]).start_time@) by {
            if j < p {
                assert(out[i] == rest[i] && out[j] == rest[j]);
            } else if j == p {
                assert(out[i] == rest[i]);
            } else if i < p {
                assert(out[i] == rest[i] && out[j] == rest[j - 1]);
            } else if i == p {
                assert(out[j] == rest[j - 1]);
                assert(rest[p].start_time@.before(x.start_time@));
                if j - 1 > p {
                    assert(!rest[p].start_time@.before(rest[j - 1].start_time@));
                }
            } else {
                assert(out[i] == rest[i - 1] && out[j] == rest[j - 1]);
            }
        }
    }
}

/// A listing holds the records it was given, each as often as it was given:
/// ordering adds none and loses none.
pub proof fn lemma_newest_first_keeps_records(sessions: Seq<Session>)
    ensures
        newest_first(sessions).to_multiset() == sessions.to_multiset(),
    decreases sessions.len(),
{
    broadcast use vstd::seq_lib::group_to_multiset_ensures;

    if sessions.len() == 0 {
    } else {
        let rest = newest_first(sessions.drop_last());
        let x = sessions.last();
        let p = not_earlier_starts(rest, x) as int;
        lemma_newest_first_keeps_records(sessions.drop_last());
        lemma_not_earlier_starts(rest, x);
        let out = rest.insert(p, x);
        assert(out.remove(p) =~= rest);
        assert(out[p] == x);
        vstd::seq_lib::to_multiset_remove(out, p);
        assert(out.to_multiset().count(x) > 0) by {
            assert(out.contains(x));
        }
        assert(out.to_multiset() =~= rest.to_multiset().insert(x));
        assert(sessions =~= sessions.drop_last().push(x));
        assert(sessions.to_multiset() =~= sessions.drop_last().to_multiset().insert(x));
    }
}

/// Whether a record started at `at`.
pub open spec fn started_at(at: Instant) -> spec_fn(Session) -> bool {
    |session: Session| session.start_time@ == at
}

/// Selecting from items of which none is wanted leaves nothing.
proof fn lemma_filter_of_none<A>(records: Seq<A>, wanted: spec_fn(A) -> bool)
    requires
        forall|i: int| 0 <= i < records.len() ==> !wanted(#[trigger] records[i]),
    ensures
        records.filter(wanted) == Seq::<A>::empty(),
    decreases records.len(),
{
    reveal(Seq::filter);
    if records.len() > 0 {
        assert forall|i: int| 0 <= i < records.drop_last().len() implies !wanted(
            #[trigger] records.drop_last()[i],
        ) by {
            assert(records.drop_last()[i] == records[i]);
        }
        lemma_filter_of_none(records.drop_last(), wanted);
        assert(!wanted(records[records.len() - 1]));
    }
}

/// Ordering is stable: the records that started at one instant stand in a
/// listing in the order in which they were given.
pub proof fn lemma_newest_first_is_stable(sessions: Seq<Session>, at: Instant)
    ensures
        newest_first(sessions).filter(started_at(at)) == sessions.filter(started_at(at)),
    decreases sessions.len(),
{
    reveal(Seq::filter);
    let wanted = started_at(at);
    if sessions.len() > 0 {
        let given = sessions.drop_last();
        let rest = newest_first(given);
        let x = sessions.last();
        let p = not_earlier_starts(rest, x) as int;
        lemma_newest_first_is_stable(given, at);
        lemma_newest_first_is_ordered(given);
        lemma_not_earlier_starts(rest, x);
        let front = rest.take(p);
        let back = rest.skip(p);
        let out = rest.insert(p, x);
        assert(rest =~= front + back);
        assert(out =~= front + seq![x] + back);
        Seq::filter_distributes_over_add(front, back, wanted);
        Seq::filter_distributes_over_add(front + seq![x], back, wanted);
        Seq::filter_distributes_over_add(front, seq![x], wanted);
        let one = seq![x];
        assert(one.drop_last() =~= Seq::<Session>::empty());
        assert(Seq::<Session>::empty().filter(wanted) =~= Seq::<Session>::empty());
        assert(one.last() == x);
        assert(one.filter(wanted) =~= if wanted(x) {
            seq![x]
        } else {
            Seq::<Session>::empty()
        });
        if wanted(x) {
            assert forall|i: int| 0 <= i < back.len() implies !wanted(#[trigger] back[i]) by {
                assert(back[i] == rest[p + i]);
                assert(rest[p].start_time@.before(x.start_time@));
                if i > 0 {
                    assert(!rest[p].start_time@.before(rest[p + i].start_time@));
                }
            }
            lemma_filter_of_none(back, wanted);
            assert(out.filter(wanted) =~= rest.filter(wanted).push(x));
        } else {
            assert(out.filter(wanted) =~= rest.filter(wanted));
        }
    }
}

/// A record that the entries add to a listing stands in the listing.
pub proof fn lemma_listed_record_is_found(files: Seq<StoredFile>, i: int)
    requires
        0 <= i < files.len(),
        listed_record(files[i]) is Some,
    ensures
        listed_records(files).contains(listed_record(files[i])->0),
    decreases files.len(),
{
    let front = listed_records(files.drop_last());
    let wanted = listed_record(files[i])->0;
    if i == files.len() - 1 {
        assert(listed_records(files) == front + seq![wanted]);
        assert((front + seq![wanted])[front.len() as int] == wanted);
    } else {
        lemma_listed_record_is_found(files.drop_last(), i);
        let k = choose|k: int| 0 <= k < front.len() && front[k] == wanted;
        match listed_record(files.last()) {
            Some(last) => {
                assert((front + seq![last])[k] == wanted);
            },
            None => {},
        }
    }
}

/// Whether a directory entry adds `session` to a listing.
pub open spec fn adds_record(session: Session) -> spec_fn(StoredFile) -> bool {
    |file: StoredFile| listed_record(file) == Some(session)
}

/// Whether a directory entry adds a record to a listing.
pub open spec fn adds_a_record() -> spec_fn(StoredFile) -> bool {
    |file: StoredFile| listed_record(file) is Some
}

/// The records of the entries hold each record as often as entries add it,
/// and as many records as entries add one.
proof fn lemma_listed_records_count(files: Seq<StoredFile>, session: Session)
    ensures
        listed_records(files).to_multiset().count(session) == files.filter(
            adds_record(session),
        ).len(),
        listed_records(files).len() == files.filter(adds_a_record()).len(),
    decreases files.len(),
{
    broadcast use vstd::seq_lib::group_to_multiset_ensures;

    reveal(Seq::filter);
    if files.len() == 0 {
        assert(listed_records(files) =~= Seq::<Session>::empty());
        assert(listed_records(files).to_multiset().count(session) == 0) by {
            if listed_records(files).to_multiset().count(session) > 0 {
                assert(listed_records(files).contains(session));
            }
        }
    } else {
        let front = files.drop_last();
        lemma_listed_records_count(front, session);
        match listed_record(files.last()) {
            Some(last) => {
                assert(listed_records(files) =~= listed_records(front).push(last));
                assert(listed_records(front).push(last).to_multiset() =~= listed_records(
                    front,
                ).to_multiset().insert(last));
            },
            None => {
                assert(listed_records(files) =~= listed_records(front));
            },
        }
    }
}

/// A listing holds each record exactly as often as entries of the data
/// directory add it, and as many records as there are entries that add one:
/// no record is lost, none is listed that no entry holds, and a corrupt or
/// unreadable file adds nothing.
pub proof fn lemma_listing_counts_entries(files: Seq<StoredFile>, session: Session)
    ensures
        newest_first(listed_records(files)).to_multiset().count(session) == files.filter(
            adds_record(session),
        ).len(),
        newest_first(listed_records(files)).len() == files.filter(adds_a_record()).len(),
{
    lemma_listed_records_count(files, session);
    lemma_newest_first_keeps_records(listed_records(files));
    lemma_newest_first_is_ordered(listed_records(files));
}

/// Where one entry alone adds a record, exactly one of the entries is
/// selected for it.
proof fn lemma_one_entry_adds(files: Seq<StoredFile>, i: int, session: Session)
    requires
        0 <= i < files.len(),
        listed_record(files[i]) == Some(session),
        forall|j: int|
            0 <= j < files.len() && j != i ==> listed_record(#[trigger] files[j]) != Some(session),
    ensures
        files.filter(adds_record(session)).len() == 1,
    decreases files.len(),
{
    reveal(Seq::filter);
    let wanted = adds_record(session);
    let front = files.drop_last();
    if i == files.len() - 1 {
        assert forall|j: int| 0 <= j < front.len() implies !wanted(#[trigger] front[j]) by {
            assert(front[j] == files[j]);
        }
        lemma_filter_of_none(front, wanted);
    } else {
        assert(front[i] == files[i]);
        assert forall|j: int| 0 <= j < front.len() && j != i implies listed_record(
            #[trigger] front[j],
        ) != Some(session) by {
            assert(front[j] == files[j]);
        }
        lemma_one_entry_adds(front, i, session);
        assert(!wanted(files[files.len() - 1]));
    }
}

/// A saved session stands exactly once in a listing: where one entry of the
/// data directory holds the record and no other entry holds the same record,
/// as it is where each session was saved once under an identifier of its own,
/// the listing holds the record once. Other entries, corrupt ones among them,
/// change nothing of this.
pub proof fn lemma_saved_session_is_listed_once(files: Seq<StoredFile>, i: int, session: Session)
    requires
        0 <= i < files.len(),
        listed_record(files[i]) == Some(session),
        forall|j: int|
            0 <= j < files.len() && j != i ==> listed_record(#[trigger] files[j]) != Some(session),
    ensures
        newest_first(listed_records(files)).to_multiset().count(session) == 1,
{
    lemma_one_entry_adds(files, i, session);
    lemma_listing_counts_entries(files, session);
}

/// Every record that was saved and can still be read is listed: where the
/// data directory holds a regular file under the name that saving gives to
/// the record kept under `id`, and the file holds a well-formed record, that
/// record is among the sessions that a listing answers with.
pub proof fn lemma_saved_session_is_listed(
    files: Seq<StoredFile>,
    i: int,
    id: Seq<char>,
    session: Session,
)
    requires
        0 <= i < files.len(),
        files[i].is_file,
        files[i].name@ == session_file_name(id),
        files[i].read == FileRead::Record(session),
    ensures
        newest_first(listed_records(files)).contains(session),
{
    broadcast use vstd::seq_lib::group_to_multiset_ensures;

    lemma_saved_file_is_listed(id);
    lemma_listed_record_is_found(files, i);
    lemma_newest_first_keeps_records(listed_records(files));
    let found = listed_records(files);
    assert(found.to_multiset().count(session) > 0);
    assert(newest_first(found).to_multiset().count(session) > 0);
}

/// The file name of a record kept under a fresh identifier holds no path
/// separator, so the record lies in the data directory itself.
pub proof fn lemma_fresh_id_names_a_file_in_the_data_dir(id: Seq<char>)
    requires
        is_hyphenated_uuid(id),
    ensures
        forall|i: int|
            0 <= i < session_file_name(id).len() ==> #[trigger] session_file_name(id)[i] != '/',
{
    reveal_strlit("session_");
    reveal_strlit(".json");
    let name = session_file_name(id);
    assert forall|i: int| 0 <= i < name.len() implies #[trigger] name[i] != '/' by {
        if 8 <= i < 8 + 36 {
            let k = i - 8;
            assert(name[i] == id[k]);
            if !(k == 8 || k == 13 || k == 18 || k == 23) {
                assert(is_lower_hex(id[k]));
            }
        }
    }
}

} // verus!
