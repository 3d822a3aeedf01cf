use dibikaandaagozi::manager::{
    add_marker_at, sort_newest_first, start_session_at, stop_session_at, stop_session_saved,
};
use dibikaandaagozi::storage::{FileRead, FileWrite, StoredFile};
use dibikaandaagozi::{
    add_marker, get_active_session, get_session_by_id, get_sessions, start_session, stop_session,
    ActiveSession, Marker, Session, SessionError, Timestamp,
};

fn at(secs: i64, nanos: u32) -> Timestamp {
    Timestamp::new(secs, nanos).unwrap()
}

fn idle() -> Option<ActiveSession> {
    None
}

fn record(id: &str, start: i64) -> Session {
    Session {
        id: id.to_string(),
        start_time: at(start, 0),
        end_time: at(start + 10, 0),
        markers: Vec::new(),
        name: None,
    }
}

fn session_file(id: &str, start: i64) -> StoredFile {
    StoredFile {
        name: format!("session_{}.json", id),
        is_file: true,
        read: FileRead::Record(record(id, start)),
    }
}

#[test]
fn an_empty_slot_has_no_active_session() {
    let state = idle();
    assert_eq!(get_active_session(&state), None);
}

#[test]
fn start_answers_with_the_identifier() {
    let mut state = idle();
    let id = start_session(&mut state).unwrap();
    let active = get_active_session(&state).unwrap();
    assert_eq!(active.id, id);
    assert!(active.markers.is_empty());
}

#[test]
fn start_twice_is_refused_the_second_time() {
    let mut state = idle();
    let id = start_session(&mut state).unwrap();
    let before = get_active_session(&state);
    assert_eq!(start_session(&mut state), Err(SessionError::AlreadyActive));
    assert_eq!(get_active_session(&state), before);
    assert_eq!(get_active_session(&state).unwrap().id, id);
}

#[test]
fn start_at_twice_keeps_the_first_session() {
    let mut state = idle();
    assert_eq!(start_session_at(&mut state, "s-1".to_string(), at(10, 0)), Ok("s-1".to_string()));
    assert_eq!(
        start_session_at(&mut state, "s-2".to_string(), at(20, 0)),
        Err(SessionError::AlreadyActive)
    );
    let active = get_active_session(&state).unwrap();
    assert_eq!(active.id, "s-1");
    assert_eq!(active.start_time, at(10, 0));
}

#[test]
fn stop_without_start_finds_no_session() {
    let mut state = idle();
    assert_eq!(stop_session(&mut state), Err(SessionError::NoActiveSession));
    assert_eq!(stop_session_at(&mut state, at(5, 0)), Err(SessionError::NoActiveSession));
    assert_eq!(get_active_session(&state), None);
}

#[test]
fn add_marker_without_start_finds_no_session() {
    let mut state = idle();
    assert_eq!(add_marker("lap".to_string(), &mut state), Err(SessionError::NoActiveSession));
    assert_eq!(
        add_marker_at("lap".to_string(), &mut state, "m".to_string(), at(1, 0)),
        Err(SessionError::NoActiveSession)
    );
    assert_eq!(get_active_session(&state), None);
}

#[test]
fn added_marker_is_the_last_of_the_active_session() {
    let mut state = idle();
    start_session(&mut state).unwrap();
    let first = add_marker("lap".to_string(), &mut state).unwrap();
    assert_eq!(get_active_session(&state).unwrap().markers.last(), Some(&first));
    let second = add_marker("lap2".to_string(), &mut state).unwrap();
    let markers = get_active_session(&state).unwrap().markers;
    assert_eq!(markers.last(), Some(&second));
    assert_eq!(markers, vec![first, second]);
}

#[test]
fn add_marker_at_answers_with_the_marker() {
    let mut state = idle();
    start_session_at(&mut state, "s-1".to_string(), at(10, 0)).unwrap();
    let marker = add_marker_at("lap".to_string(), &mut state, "m-1".to_string(), at(11, 0));
    assert_eq!(
        marker,
        Ok(Marker {
            id: "m-1".to_string(),
            timestamp: at(11, 0),
            label: "lap".to_string(),
            notes: None,
        })
    );
}

#[test]
fn start_markers_stop_yields_the_record() {
    let mut state = idle();
    let id = start_session(&mut state).unwrap();
    let started = get_active_session(&state).unwrap().start_time;
    let lap = add_marker("lap".to_string(), &mut state).unwrap();
    let lap2 = add_marker("lap2".to_string(), &mut state).unwrap();
    let record = stop_session(&mut state).unwrap();
    assert_eq!(record.id, id);
    assert_eq!(record.start_time, started);
    assert_eq!(record.markers.len(), 2);
    assert_eq!(record.markers[0].label, "lap");
    assert_eq!(record.markers[1].label, "lap2");
    assert_eq!(record.markers, vec![lap, lap2]);
    assert_eq!(record.name, None);
    assert!(!record.end_time.is_before(&record.start_time));
    assert_eq!(get_active_session(&state), None);
}

#[test]
fn stop_at_yields_the_record_with_that_end() {
    let mut state = idle();
    start_session_at(&mut state, "s-1".to_string(), at(100, 0)).unwrap();
    add_marker_at("lap".to_string(), &mut state, "m-1".to_string(), at(130, 0)).unwrap();
    let record = stop_session_at(&mut state, at(190, 0)).unwrap();
    assert_eq!(
        record,
        Session {
            id: "s-1".to_string(),
            start_time: at(100, 0),
            end_time: at(190, 0),
            markers: vec![Marker {
                id: "m-1".to_string(),
                timestamp: at(130, 0),
                label: "lap".to_string(),
                notes: None,
            }],
            name: None,
        }
    );
    assert_eq!(get_active_session(&state), None);
}

#[test]
fn a_stop_before_the_start_yields_a_record_that_ends_at_its_start() {
    let mut state = idle();
    start_session_at(&mut state, "s-1".to_string(), at(100, 0)).unwrap();
    let record = stop_session_at(&mut state, at(50, 0)).unwrap();
    assert_eq!(record.start_time, at(100, 0));
    assert_eq!(record.end_time, at(100, 0));
    assert!(!record.end_time.is_before(&record.start_time));
    assert_eq!(get_active_session(&state), None);
}

#[test]
fn a_stop_now_of_a_session_that_starts_in_the_future_ends_at_its_start() {
    let mut state = idle();
    let start = Timestamp::new(Timestamp::now().seconds() + 3_600, 0).unwrap();
    start_session_at(&mut state, "s-1".to_string(), start).unwrap();
    let record = stop_session(&mut state).unwrap();
    assert_eq!(record.end_time, start);
    assert!(!record.end_time.is_before(&record.start_time));
}

#[test]
fn stopped_sessions_do_not_end_before_they_start() {
    for _ in 0..10 {
        let mut state = idle();
        start_session(&mut state).unwrap();
        let record = stop_session(&mut state).unwrap();
        assert!(!record.end_time.is_before(&record.start_time));
    }
}

#[test]
fn after_a_stop_a_session_can_start_again() {
    let mut state = idle();
    let first = start_session(&mut state).unwrap();
    stop_session(&mut state).unwrap();
    let second = start_session(&mut state).unwrap();
    assert_ne!(first, second);
    assert_eq!(get_active_session(&state).unwrap().id, second);
    assert_eq!(stop_session(&mut state).unwrap().id, second);
    assert_eq!(stop_session(&mut state), Err(SessionError::NoActiveSession));
}

#[test]
fn at_most_one_session_is_active_through_a_run_of_requests() {
    let mut state = idle();
    let mut started = 0;
    let mut stopped = 0;
    for step in 0..40 {
        let accepted = match step % 5 {
            0 | 1 | 3 => {
                let ok = start_session(&mut state).is_ok();
                if ok {
                    started += 1;
                }
                ok
            }
            2 => add_marker("lap".to_string(), &mut state).is_ok(),
            _ => {
                let ok = stop_session(&mut state).is_ok();
                if ok {
                    stopped += 1;
                }
                ok
            }
        };
        let active = if get_active_session(&state).is_some() { 1 } else { 0 };
        assert_eq!(started - stopped, active);
        assert!(active <= 1);
        assert_eq!(accepted, step % 5 != 1 && step % 5 != 3);
    }
}

#[test]
fn the_snapshot_does_not_follow_later_markers() {
    let mut state = idle();
    start_session(&mut state).unwrap();
    let snapshot = get_active_session(&state).unwrap();
    add_marker("lap".to_string(), &mut state).unwrap();
    assert!(snapshot.markers.is_empty());
    assert_eq!(get_active_session(&state).unwrap().markers.len(), 1);
}

#[test]
fn a_saved_stop_answers_with_the_record() {
    let completed = record("s-1", 100);
    assert_eq!(stop_session_saved(completed, FileWrite::Written), Ok(record("s-1", 100)));
}

#[test]
fn a_stop_that_could_not_be_saved_reports_the_failure_and_leaves_the_slot_empty() {
    let mut state = idle();
    start_session(&mut state).unwrap();
    let completed = stop_session(&mut state).unwrap();
    let answer = stop_session_saved(completed, FileWrite::NotCreated("disk full".to_string()));
    assert_eq!(answer, Err(SessionError::StoreWriteError("disk full".to_string())));
    assert_eq!(get_active_session(&state), None);
    let other = stop_session_saved(
        record("s-2", 1),
        FileWrite::NotSerialized("broken pipe".to_string()),
    );
    assert_eq!(other, Err(SessionError::SerializationError("broken pipe".to_string())));
}

#[test]
fn sort_puts_the_latest_start_first() {
    let sorted = sort_newest_first(vec![record("t1", 100), record("t2", 200), record("t3", 300)]);
    assert_eq!(sorted, vec![record("t3", 300), record("t2", 200), record("t1", 100)]);
    let sorted = sort_newest_first(vec![record("t2", 200), record("t3", 300), record("t1", 100)]);
    assert_eq!(sorted, vec![record("t3", 300), record("t2", 200), record("t1", 100)]);
    assert_eq!(sort_newest_first(Vec::new()), Vec::<Session>::new());
}

#[test]
fn sort_orders_by_nanoseconds_within_a_second() {
    let mut early = record("early", 100);
    early.start_time = at(100, 1);
    let mut late = record("late", 100);
    late.start_time = at(100, 2);
    let sorted = sort_newest_first(vec![early.clone(), late.clone()]);
    assert_eq!(sorted, vec![late, early]);
}

#[test]
fn sort_keeps_the_order_of_equal_starts() {
    let sorted = sort_newest_first(vec![
        record("a", 100),
        record("b", 200),
        record("c", 100),
        record("d", 200),
        record("e", 100),
    ]);
    let ids: Vec<String> = sorted.into_iter().map(|s| s.id).collect();
    assert_eq!(ids, vec!["b", "d", "a", "c", "e"]);
}

#[test]
fn sort_agrees_with_a_stable_sort_by_start() {
    let starts: Vec<i64> = vec![5, 3, 9, 3, 7, 9, 1, 5, 5, 2, 8, 0, 3];
    let records: Vec<Session> =
        starts.iter().enumerate().map(|(i, s)| record(&format!("r{}", i), *s)).collect();
    let mut expected = records.clone();
    expected.sort_by(|a, b| b.start_time.seconds().cmp(&a.start_time.seconds()));
    assert_eq!(sort_newest_first(records), expected);
}

#[test]
fn get_sessions_lists_saved_sessions_newest_first() {
    let files = vec![session_file("t1", 100), session_file("t2", 200), session_file("t3", 300)];
    let listed = get_sessions(Ok(files)).unwrap();
    assert_eq!(listed, vec![record("t3", 300), record("t2", 200), record("t1", 100)]);
}

#[test]
fn get_sessions_passes_over_a_corrupt_record() {
    let files = vec![
        session_file("t1", 100),
        StoredFile {
            name: "session_bad.json".to_string(),
            is_file: true,
            read: FileRead::Malformed("expected value at line 1 column 1".to_string()),
        },
        session_file("t3", 300),
        StoredFile {
            name: "session_locked.json".to_string(),
            is_file: true,
            read: FileRead::Unreadable("permission denied".to_string()),
        },
        session_file("t2", 200),
    ];
    let listed = get_sessions(Ok(files)).unwrap();
    assert_eq!(listed, vec![record("t3", 300), record("t2", 200), record("t1", 100)]);
}

#[test]
fn get_sessions_reports_a_directory_that_cannot_be_read() {
    assert_eq!(
        get_sessions(Err("no such directory".to_string())),
        Err(SessionError::StoreReadError("no such directory".to_string()))
    );
}

#[test]
fn get_session_by_id_answers_as_the_store_does() {
    assert_eq!(get_session_by_id(FileRead::Missing), Ok(None));
    assert_eq!(
        get_session_by_id(FileRead::Record(record("s-1", 5))),
        Ok(Some(record("s-1", 5)))
    );
    assert_eq!(
        get_session_by_id(FileRead::Unreadable("denied".to_string())),
        Err(SessionError::StoreReadError("denied".to_string()))
    );
}
